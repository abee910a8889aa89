use rusty_moon::discord::job_status::{group_name_of, object_groups, JobStatusMessage, ObjectGroup};
use rusty_moon::discord::{
    layer_string, presence_of, status_embeds, Config, Embed, EmbedField, OnlineKind,
    ServiceBuilder, ThreadAction, ThreadTracker,
};
use rusty_moon::moonraker::{JobInfo, ObjectInformation, Printer, State, Status};

fn job(file_name: &str, objects: Vec<ObjectInformation>) -> JobInfo {
    JobInfo {
        file_name: file_name.to_string(),
        current_layer: 12,
        total_layer: 240,
        objects,
    }
}

fn object(name: &str, excluded: bool) -> ObjectInformation {
    ObjectInformation {
        name: name.to_string(),
        excluded,
    }
}

fn field(name: &str, value: &str, inline: bool) -> EmbedField {
    EmbedField {
        name: name.to_string(),
        value: value.to_string(),
        inline,
    }
}

#[test]
fn presence_for_each_state() {
    let cases = [
        (State::Disconnected, "Disconnected", OnlineKind::Idle),
        (State::Startup, "Ready", OnlineKind::Online),
        (State::Standby, "Ready", OnlineKind::Online),
        (State::Printing, "Printing", OnlineKind::DoNotDisturb),
        (State::Paused, "Paused", OnlineKind::Online),
        (State::Complete, "Ready", OnlineKind::Online),
        (State::Shutdown("x".to_string()), "Shutdown", OnlineKind::Idle),
        (State::Error("y".to_string()), "Error", OnlineKind::Idle),
    ];
    for (state, activity, online) in cases {
        let p = presence_of(&state);
        assert_eq!(p.activity, activity);
        assert_eq!(p.online, online);
    }
}

#[test]
fn layer_text_renders_both_numbers() {
    assert_eq!(layer_string(0, 0), "0 / 0");
    assert_eq!(layer_string(12, 240), "12 / 240");
    assert_eq!(layer_string(65535, 10), "65535 / 10");
}

#[test]
fn embeds_without_printer_part() {
    assert!(status_embeds(&Status::default()).is_empty());
}

#[test]
fn embeds_without_job() {
    let status = Status {
        printer: Some(Printer { job: None }),
        state: State::Standby,
    };
    assert_eq!(
        status_embeds(&status),
        vec![Embed {
            title: "Job status".to_string(),
            description: Some("No job".to_string()),
            fields: vec![],
        }]
    );
}

#[test]
fn embeds_with_job() {
    let status = Status {
        printer: Some(Printer {
            job: Some(job("cube.gcode", vec![])),
        }),
        state: State::Printing,
    };
    assert_eq!(
        status_embeds(&status),
        vec![Embed {
            title: "Job status".to_string(),
            description: None,
            fields: vec![field("Layer", "12 / 240", true)],
        }]
    );
}

#[test]
fn thread_per_new_file_name() {
    let mut tracker = ThreadTracker::new();
    let with_job = |name: &str| Status {
        printer: Some(Printer {
            job: Some(job(name, vec![])),
        }),
        state: State::Printing,
    };
    assert_eq!(tracker.on_status(&Status::default()), ThreadAction::Nothing);
    assert_eq!(
        tracker.on_status(&with_job("a.gcode")),
        ThreadAction::Open("a.gcode".to_string())
    );
    assert_eq!(tracker.on_status(&with_job("a.gcode")), ThreadAction::Update);
    assert_eq!(
        tracker.on_status(&with_job("b.gcode")),
        ThreadAction::Open("b.gcode".to_string())
    );
    assert_eq!(tracker.current_file_name, "b.gcode");
}

#[test]
fn group_name_stops_at_first_dot() {
    assert_eq!(group_name_of(&"part.a.stl".to_string()), "part");
    assert_eq!(group_name_of(&"nodot".to_string()), "nodot");
    assert_eq!(group_name_of(&".hidden".to_string()), "");
    assert_eq!(group_name_of(&String::new()), "");
}

#[test]
fn objects_grouped_in_order_of_first_appearance() {
    let objects = vec![
        object("gear.1", false),
        object("bolt.1", true),
        object("gear.2", true),
        object("gear.3", false),
        object("bolt.2", false),
    ];
    assert_eq!(
        object_groups(&objects),
        vec![
            ObjectGroup {
                name: "gear".to_string(),
                total: 3,
                excluded: 1,
            },
            ObjectGroup {
                name: "bolt".to_string(),
                total: 2,
                excluded: 1,
            },
        ]
    );
}

#[test]
fn job_status_without_objects() {
    let message = JobStatusMessage::new(&State::Paused, &job("cube.gcode", vec![]));
    assert_eq!(
        message.embed,
        Embed {
            title: "Job Status".to_string(),
            description: None,
            fields: vec![field("State", "Paused", true), field("Layers", "12 / 240", true)],
        }
    );
}

#[test]
fn job_status_with_objects() {
    let objects = vec![
        object("gear.1", false),
        object("bolt.1", true),
        object("gear.2", true),
    ];
    let message = JobStatusMessage::new(&State::Printing, &job("plate.gcode", objects));
    assert_eq!(
        message.embed.fields,
        vec![
            field("State", "Printing", true),
            field("Layers", "12 / 240", true),
            field("Objects 1 / 3", "gear: 1 / 2\nbolt: 0 / 1", false),
        ]
    );
}

#[test]
fn chat_builder_keeps_config() {
    let config = Config {
        token: "SECRET-REDACTED".to_string(),
        user_id: 1,
        channel_id: 2,
    };
    assert_eq!(ServiceBuilder::new(config.clone()).config, config);
}
