//! The one decision loop that every subscription feeds: it owns the status
//! snapshot, tracks the daemon's lifecycle and turns alerts into
//! notifications. Each event is handled to completion before the next one is
//! taken; work that needs the daemon or the network is handed out as a
//! command, and its result comes back through a `finish_` method.
use vstd::prelude::*;

use super::api::PrinterObjectStatus;
use super::status::{
    disconnected_view, job_matches_state, lemma_job_iff_active_state, reconcile, reconciled, Status,
    StatusView,
};
use super::{KlippyState, Notification, NotificationParams, NotificationView};

verus! {

/// One item from one of the subscriptions.
#[derive(Clone, Debug, PartialEq, Eq)]
pub enum Event {
    /// A push of the printer's status objects.
    StatusUpdate(PrinterObjectStatus),
    /// A lifecycle signal: ready, disconnected or shutdown.
    Klippy(KlippyState),
    /// An alert on the registered alert method.
    Alert(NotificationParams),
}

/// An outbound call to the daemon.
#[derive(Clone, Copy, Debug, PartialEq, Eq, Structural)]
pub enum Call {
    /// Subscribe again to the printer's status objects.
    RegisterStatusSubscription,
    /// Register again the alert method.
    RegisterAlertMethod,
    /// Query the printer's full status.
    QueryStatus,
}

/// What the loop has to do once an event was handled.
#[derive(Debug, PartialEq, Eq)]
pub enum Command<I> {
    /// Nothing.
    Idle,
    /// Publish the current snapshot.
    Publish,
    /// Make the calls of `refresh_calls` in order, then hand the query's
    /// answer to `finish_refresh`.
    Refresh,
    /// Fetch a snapshot of the named webcam, then hand the image, or `None`
    /// when that failed, to `finish_alert`.
    FetchSnapshot(String),
    /// Deliver this notification.
    Deliver(Notification<I>),
}

pub enum CommandView<I> {
    Idle,
    Publish,
    Refresh,
    FetchSnapshot(Seq<char>),
    Deliver(NotificationView<I>),
}

impl<I> View for Command<I> {
    type V = CommandView<I>;

    open spec fn view(&self) -> CommandView<I> {
        match self {
            Command::Idle => CommandView::Idle,
            Command::Publish => CommandView::Publish,
            Command::Refresh => CommandView::Refresh,
            Command::FetchSnapshot(name) => CommandView::FetchSnapshot(name@),
            Command::Deliver(n) => CommandView::Deliver(n@),
        }
    }
}

/// Work of the current event that waits on an outside result.
#[derive(Debug)]
pub enum Pending {
    Nothing,
    /// The registrations and the status query of a refresh.
    Refresh,
    /// A webcam snapshot for the alert with this message.
    Snapshot(String),
}

pub enum PendingView {
    Nothing,
    Refresh,
    Snapshot(Seq<char>),
}

impl View for Pending {
    type V = PendingView;

    open spec fn view(&self) -> PendingView {
        match self {
            Pending::Nothing => PendingView::Nothing,
            Pending::Refresh => PendingView::Refresh,
            Pending::Snapshot(m) => PendingView::Snapshot(m@),
        }
    }
}

#[derive(Debug)]
pub struct Supervisor {
    klippy: KlippyState,
    status: Status,
    pending: Pending,
}

pub struct SupervisorView {
    pub klippy: KlippyState,
    pub status: StatusView,
    pub pending: PendingView,
}

impl View for Supervisor {
    type V = SupervisorView;

    closed spec fn view(&self) -> SupervisorView {
        SupervisorView { klippy: self.klippy, status: self.status@, pending: self.pending@ }
    }
}

/// The state at service start: disconnected, nothing known, nothing pending.
pub open spec fn initial() -> SupervisorView {
    SupervisorView {
        klippy: KlippyState::Disconnected,
        status: disconnected_view(),
        pending: PendingView::Nothing,
    }
}

/// The calls that a move to ready makes, in this order.
pub open spec fn refresh_sequence() -> Seq<Call> {
    seq![Call::RegisterStatusSubscription, Call::RegisterAlertMethod, Call::QueryStatus]
}

/// The state after a lifecycle signal. A signal for the state that is
/// already current changes nothing.
pub open spec fn after_klippy(s: SupervisorView, k: KlippyState) -> SupervisorView {
    if k == s.klippy {
        s
    } else {
        match k {
            KlippyState::Ready => SupervisorView {
                klippy: k,
                status: s.status,
                pending: PendingView::Refresh,
            },
            KlippyState::Disconnected => SupervisorView {
                klippy: k,
                status: disconnected_view(),
                pending: s.pending,
            },
            KlippyState::Shutdown => SupervisorView {
                klippy: k,
                status: s.status,
                pending: s.pending,
            },
        }
    }
}

/// The state after an event.
pub open spec fn after_event(s: SupervisorView, e: Event) -> SupervisorView {
    match e {
        Event::StatusUpdate(raw) => SupervisorView {
            klippy: s.klippy,
            status: reconciled(s.status, raw),
            pending: s.pending,
        },
        Event::Klippy(k) => after_klippy(s, k),
        Event::Alert(params) => match params.webcam {
            None => s,
            Some(_) => SupervisorView {
                klippy: s.klippy,
                status: s.status,
                pending: PendingView::Snapshot(params.message@),
            },
        },
    }
}

/// The command that an event gives.
pub open spec fn command_for<I>(s: SupervisorView, e: Event) -> CommandView<I> {
    match e {
        Event::StatusUpdate(_) => CommandView::Publish,
        Event::Klippy(k) => if k == s.klippy {
            CommandView::Idle
        } else {
            match k {
                KlippyState::Ready => CommandView::Refresh,
                KlippyState::Disconnected => CommandView::Publish,
                KlippyState::Shutdown => CommandView::Idle,
            }
        },
        Event::Alert(params) => match params.webcam {
            None => CommandView::Deliver(NotificationView { message: params.message@, image: None }),
            Some(name) => CommandView::FetchSnapshot(name@),
        },
    }
}

/// The state once the status query of a refresh has answered `raw`.
pub open spec fn after_refresh(s: SupervisorView, raw: PrinterObjectStatus) -> SupervisorView {
    SupervisorView {
        klippy: s.klippy,
        status: reconciled(disconnected_view(), raw),
        pending: PendingView::Nothing,
    }
}

/// The state once the snapshot of an alert was fetched or given up.
pub open spec fn after_snapshot(s: SupervisorView) -> SupervisorView {
    SupervisorView { klippy: s.klippy, status: s.status, pending: PendingView::Nothing }
}

impl Supervisor {
    pub fn new() -> (r: Supervisor)
        ensures
            r@ == initial(),
    {
        Supervisor {
            klippy: KlippyState::Disconnected,
            status: Status::disconnected(),
            pending: Pending::Nothing,
        }
    }

    /// Whether no event's work is outstanding, so that the next event may be
    /// taken.
    pub fn is_idle(&self) -> (r: bool)
        ensures
            r == (self@.pending is Nothing),
    {
        match self.pending {
            Pending::Nothing => true,
            _ => false,
        }
    }

    /// The current snapshot, as it is to be published.
    pub fn status(&self) -> (r: &Status)
        ensures
            r@ == self@.status,
    {
        &self.status
    }

    pub fn klippy_state(&self) -> (r: KlippyState)
        ensures
            r == self@.klippy,
    {
        self.klippy
    }

    /// The calls that a refresh makes, in order.
    pub fn refresh_calls() -> (r: Vec<Call>)
        ensures
            r@ == refresh_sequence(),
    {
        let mut calls: Vec<Call> = Vec::new();
        calls.push(Call::RegisterStatusSubscription);
        calls.push(Call::RegisterAlertMethod);
        calls.push(Call::QueryStatus);
        assert(calls@ =~= refresh_sequence());
        calls
    }

    fn on_klippy<I>(&mut self, k: KlippyState) -> (r: Command<I>)
        requires
            old(self)@.pending is Nothing,
        ensures
            final(self)@ == after_klippy(old(self)@, k),
            r@ == command_for::<I>(old(self)@, Event::Klippy(k)),
    {
        if k == self.klippy {
            return Command::Idle;
        }
        self.klippy = k;
        match k {
            KlippyState::Ready => {
                self.pending = Pending::Refresh;
                Command::Refresh
            },
            KlippyState::Disconnected => {
                self.status = Status::disconnected();
                Command::Publish
            },
            KlippyState::Shutdown => Command::Idle,
        }
    }

    /// Handles one event. Only an idle supervisor takes an event.
    pub fn handle<I>(&mut self, event: Event) -> (r: Command<I>)
        requires
            old(self)@.pending is Nothing,
        ensures
            final(self)@ == after_event(old(self)@, event),
            r@ == command_for::<I>(old(self)@, event),
    {
        match event {
            Event::StatusUpdate(raw) => {
                self.status = reconcile(&self.status, &raw);
                Command::Publish
            },
            Event::Klippy(k) => self.on_klippy(k),
            Event::Alert(params) => match params.webcam {
                None => Command::Deliver(Notification { message: params.message, image: None }),
                Some(name) => {
                    self.pending = Pending::Snapshot(params.message);
                    Command::FetchSnapshot(name)
                },
            },
        }
    }

    /// Completes a refresh with the answer of its status query.
    pub fn finish_refresh(&mut self, raw: &PrinterObjectStatus)
        requires
            old(self)@.pending is Refresh,
        ensures
            final(self)@ == after_refresh(old(self)@, *raw),
    {
        self.status = Status::from_status(raw);
        self.pending = Pending::Nothing;
    }

    /// Completes an alert with the fetched image, or with `None` when the
    /// fetch failed; the message is delivered either way.
    pub fn finish_alert<I>(&mut self, image: Option<I>) -> (r: Notification<I>)
        requires
            old(self)@.pending is Snapshot,
        ensures
            final(self)@ == after_snapshot(old(self)@),
            r@ == (NotificationView { message: old(self)@.pending->Snapshot_0, image }),
    {
        let message = match &self.pending {
            Pending::Snapshot(m) => m.clone(),
            _ => String::new(),
        };
        self.pending = Pending::Nothing;
        Notification { message, image }
    }
}

/// A move from disconnected to ready makes one refresh: the registrations,
/// then a single status query as the last call. Once its answer `raw` is in,
/// the snapshot is `raw` reconciled onto the initial one, nothing is
/// pending, and a repeated ready signal makes no second refresh.
pub proof fn lemma_ready_refreshes_once<I>(s: SupervisorView, raw: PrinterObjectStatus)
    requires
        s.klippy == KlippyState::Disconnected,
        s.pending is Nothing,
    ensures
        command_for::<I>(s, Event::Klippy(KlippyState::Ready)) == CommandView::<I>::Refresh,
        after_event(s, Event::Klippy(KlippyState::Ready)).pending == PendingView::Refresh,
        refresh_sequence().last() == Call::QueryStatus,
        forall|i: int|
            0 <= i < refresh_sequence().len() - 1 ==> refresh_sequence()[i] != Call::QueryStatus,
        refresh_sequence().drop_last().contains(Call::RegisterStatusSubscription),
        refresh_sequence().drop_last().contains(Call::RegisterAlertMethod),
        after_refresh(after_event(s, Event::Klippy(KlippyState::Ready)), raw).status == reconciled(
            disconnected_view(),
            raw,
        ),
        after_refresh(after_event(s, Event::Klippy(KlippyState::Ready)), raw).pending is Nothing,
        command_for::<I>(
            after_refresh(after_event(s, Event::Klippy(KlippyState::Ready)), raw),
            Event::Klippy(KlippyState::Ready),
        ) == CommandView::<I>::Idle,
{
    assert(refresh_sequence().drop_last()[0] == Call::RegisterStatusSubscription);
    assert(refresh_sequence().drop_last()[1] == Call::RegisterAlertMethod);
}

/// Events are taken one at a time. An event handled by an idle supervisor
/// leaves it idle, or waiting on exactly the one result that its command
/// asks for; handing in that result makes it idle again, so that the next
/// event finds no work of another outstanding.
pub proof fn lemma_one_event_at_a_time<I>(s: SupervisorView, e: Event, raw: PrinterObjectStatus)
    requires
        s.pending is Nothing,
    ensures
        after_event(s, e).pending is Nothing
            || (after_event(s, e).pending is Refresh && command_for::<I>(s, e) is Refresh)
            || (after_event(s, e).pending is Snapshot && command_for::<I>(s, e) is FetchSnapshot),
        after_event(s, e).pending is Refresh ==> after_refresh(after_event(s, e), raw).pending is Nothing,
        after_event(s, e).pending is Snapshot ==> after_snapshot(after_event(s, e)).pending is Nothing,
{
}

/// Every snapshot that the supervisor holds, from its start on, has a job
/// exactly when its state is printing, paused or complete.
pub proof fn lemma_snapshot_job_matches_state(s: SupervisorView, e: Event, raw: PrinterObjectStatus)
    requires
        job_matches_state(s.status),
    ensures
        job_matches_state(initial().status),
        job_matches_state(after_event(s, e).status),
        job_matches_state(after_refresh(s, raw).status),
        job_matches_state(after_snapshot(s).status),
{
    lemma_job_iff_active_state(s.status, raw);
    lemma_job_iff_active_state(disconnected_view(), raw);
    if let Event::StatusUpdate(r) = e {
        lemma_job_iff_active_state(s.status, r);
    }
}

} // verus!
