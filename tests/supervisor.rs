use rusty_moon::moonraker::api::{PrintStats, PrintStatsInfo, PrinterObjectStatus, ServerInfoResponse};
use rusty_moon::moonraker::status::reconcile;
use rusty_moon::moonraker::supervisor::{Call, Command, Event, Supervisor};
use rusty_moon::moonraker::{
    KlippyState, Notification, NotificationParams, State, Status, UnknownKlippyState,
};

fn printing(layer: u16) -> PrinterObjectStatus {
    PrinterObjectStatus {
        print_stats: PrintStats {
            state: Some("printing".to_string()),
            file_name: Some("cube.gcode".to_string()),
            info: PrintStatsInfo {
                current_layer: Some(layer),
                total_layer: Some(100),
            },
            ..PrintStats::default()
        },
        ..PrinterObjectStatus::default()
    }
}

fn alert(message: &str, webcam: Option<&str>) -> Event {
    Event::Alert(NotificationParams {
        message: message.to_string(),
        webcam: webcam.map(|w| w.to_string()),
    })
}

#[test]
fn starts_disconnected_and_idle() {
    let s = Supervisor::new();
    assert!(s.is_idle());
    assert_eq!(s.klippy_state(), KlippyState::Disconnected);
    assert_eq!(*s.status(), Status::default());
}

#[test]
fn ready_from_disconnected_refreshes_once() {
    let mut s = Supervisor::new();
    let cmd: Command<()> = s.handle(Event::Klippy(KlippyState::Ready));
    assert_eq!(cmd, Command::Refresh);
    assert!(!s.is_idle());
    assert_eq!(
        Supervisor::refresh_calls(),
        vec![Call::RegisterStatusSubscription, Call::RegisterAlertMethod, Call::QueryStatus]
    );
    let answer = printing(7);
    s.finish_refresh(&answer);
    assert!(s.is_idle());
    assert_eq!(*s.status(), reconcile(&Status::default(), &answer));
    assert_eq!(s.klippy_state(), KlippyState::Ready);
    let again: Command<()> = s.handle(Event::Klippy(KlippyState::Ready));
    assert_eq!(again, Command::Idle);
    assert!(s.is_idle());
}

#[test]
fn disconnect_publishes_disconnected_at_once() {
    let mut s = Supervisor::new();
    let _: Command<()> = s.handle(Event::Klippy(KlippyState::Ready));
    s.finish_refresh(&printing(3));
    let cmd: Command<()> = s.handle(Event::Klippy(KlippyState::Disconnected));
    assert_eq!(cmd, Command::Publish);
    assert_eq!(
        *s.status(),
        Status {
            printer: None,
            state: State::Disconnected,
        }
    );
    let repeat: Command<()> = s.handle(Event::Klippy(KlippyState::Disconnected));
    assert_eq!(repeat, Command::Idle);
}

#[test]
fn shutdown_is_observed_but_not_published() {
    let mut s = Supervisor::new();
    let _: Command<()> = s.handle(Event::StatusUpdate(printing(4)));
    let before = s.status().clone();
    let cmd: Command<()> = s.handle(Event::Klippy(KlippyState::Shutdown));
    assert_eq!(cmd, Command::Idle);
    assert_eq!(s.klippy_state(), KlippyState::Shutdown);
    assert_eq!(*s.status(), before);
}

#[test]
fn status_update_publishes_reconciled_snapshot() {
    let mut s = Supervisor::new();
    let cmd: Command<()> = s.handle(Event::StatusUpdate(printing(42)));
    assert_eq!(cmd, Command::Publish);
    let job = s.status().printer.clone().unwrap().job.unwrap();
    assert_eq!(job.current_layer, 42);
    assert_eq!(s.status().state, State::Printing);
}

#[test]
fn alert_without_webcam_is_delivered_at_once() {
    let mut s = Supervisor::new();
    let cmd: Command<u32> = s.handle(alert("hello", None));
    assert_eq!(
        cmd,
        Command::Deliver(Notification {
            message: "hello".to_string(),
            image: None,
        })
    );
    assert!(s.is_idle());
}

#[test]
fn webcam_failure_still_delivers_message() {
    let mut s = Supervisor::new();
    let cmd: Command<u32> = s.handle(alert("done", Some("cam1")));
    assert_eq!(cmd, Command::FetchSnapshot("cam1".to_string()));
    assert!(!s.is_idle());
    let notification = s.finish_alert::<u32>(None);
    assert_eq!(
        notification,
        Notification {
            message: "done".to_string(),
            image: None,
        }
    );
    assert!(s.is_idle());
    let next: Command<u32> = s.handle(Event::StatusUpdate(printing(1)));
    assert_eq!(next, Command::Publish);
}

#[test]
fn webcam_success_attaches_image() {
    let mut s = Supervisor::new();
    let _: Command<u32> = s.handle(alert("layer 10", Some("cam")));
    let notification = s.finish_alert(Some(99u32));
    assert_eq!(notification.message, "layer 10");
    assert_eq!(notification.image, Some(99));
}

#[test]
fn interleaved_subscriptions_never_overlap() {
    // Two simulated subscriptions: status pushes and alerts with snapshots.
    let statuses: Vec<Event> = (1..=4).map(|l| Event::StatusUpdate(printing(l))).collect();
    let alerts: Vec<Event> = (1..=3)
        .map(|i| alert(&format!("alert {}", i), Some("cam")))
        .collect();
    let mut order = Vec::new();
    let (mut a, mut b) = (statuses.into_iter(), alerts.into_iter());
    loop {
        match (a.next(), b.next()) {
            (None, None) => break,
            (x, y) => {
                order.extend(x);
                order.extend(y);
            }
        }
    }
    let mut s = Supervisor::new();
    let mut in_flight = 0;
    let mut delivered = Vec::new();
    for event in order {
        assert!(s.is_idle(), "an event was taken while another was in progress");
        in_flight += 1;
        assert_eq!(in_flight, 1);
        match s.handle::<()>(event) {
            Command::FetchSnapshot(_) => {
                assert!(!s.is_idle());
                delivered.push(s.finish_alert::<()>(None).message);
            }
            Command::Publish | Command::Idle => {}
            other => panic!("unexpected command {:?}", other),
        }
        in_flight -= 1;
        assert!(s.is_idle());
    }
    assert_eq!(delivered, vec!["alert 1", "alert 2", "alert 3"]);
    let job = s.status().printer.clone().unwrap().job.unwrap();
    assert_eq!(job.current_layer, 4);
}

#[test]
fn klippy_state_from_server_info() {
    let info = |s: &str| ServerInfoResponse {
        klippy_connected: true,
        klippy_state: s.to_string(),
    };
    assert_eq!(KlippyState::from_server_info(&info("ready")), Ok(KlippyState::Ready));
    assert_eq!(KlippyState::from_server_info(&info("shutdown")), Ok(KlippyState::Shutdown));
    assert_eq!(
        KlippyState::from_server_info(&info("disconnected")),
        Ok(KlippyState::Disconnected)
    );
    assert_eq!(
        KlippyState::from_server_info(&info("startup")),
        Err(UnknownKlippyState {
            state: "startup".to_string(),
        })
    );
    assert_eq!(KlippyState::default(), KlippyState::Disconnected);
}
