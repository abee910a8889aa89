//! The daemon side: its lifecycle, its alerts and the status snapshot.
use vstd::prelude::*;

pub mod api;
pub mod client_builder;
pub mod status;
pub mod supervisor;
pub mod webcam;

pub use self::status::{JobInfo, ObjectInformation, Printer, State, Status};

use self::api::ServerInfoResponse;
use self::status::is_word;

verus! {

/// The lifecycle state of the daemon's control process.
#[derive(Clone, Copy, Debug, PartialEq, Eq, Structural)]
pub enum KlippyState {
    Disconnected,
    Ready,
    Shutdown,
}

impl Default for KlippyState {
    fn default() -> (r: Self)
        ensures
            r == KlippyState::Disconnected,
    {
        KlippyState::Disconnected
    }
}

/// A lifecycle string that names no known state.
#[derive(Clone, Debug, PartialEq, Eq)]
pub struct UnknownKlippyState {
    pub state: String,
}

/// The lifecycle state that the server-info string names, if any.
pub open spec fn klippy_state_named(s: Seq<char>) -> Option<KlippyState> {
    if s == "ready"@ {
        Some(KlippyState::Ready)
    } else if s == "shutdown"@ {
        Some(KlippyState::Shutdown)
    } else if s == "disconnected"@ {
        Some(KlippyState::Disconnected)
    } else {
        None
    }
}

impl KlippyState {
    /// Reads the lifecycle state from the server-info answer; a string that
    /// names no state is an error that carries it.
    pub fn from_server_info(info: &ServerInfoResponse) -> (r: Result<KlippyState, UnknownKlippyState>)
        ensures
            match klippy_state_named(info.klippy_state@) {
                Some(k) => r == Ok::<KlippyState, UnknownKlippyState>(k),
                None => r matches Err(e) && e.state@ == info.klippy_state@,
            },
    {
        let s = &info.klippy_state;
        if is_word(s, "ready") {
            Ok(KlippyState::Ready)
        } else if is_word(s, "shutdown") {
            Ok(KlippyState::Shutdown)
        } else if is_word(s, "disconnected") {
            Ok(KlippyState::Disconnected)
        } else {
            Err(UnknownKlippyState { state: s.clone() })
        }
    }
}

/// An alert as the daemon sends it: a message, and the name of a webcam
/// whose snapshot should go with it.
#[derive(Clone, Debug, PartialEq, Eq)]
pub struct NotificationParams {
    pub message: String,
    pub webcam: Option<String>,
}

/// An alert ready for delivery, with the image handle `I` of a snapshot when
/// one was fetched.
#[derive(Debug, PartialEq, Eq)]
pub struct Notification<I> {
    pub message: String,
    pub image: Option<I>,
}

pub struct NotificationView<I> {
    pub message: Seq<char>,
    pub image: Option<I>,
}

impl<I> View for Notification<I> {
    type V = NotificationView<I>;

    open spec fn view(&self) -> NotificationView<I> {
        NotificationView { message: self.message@, image: self.image }
    }
}

/// How to reach the daemon.
#[derive(Clone, Debug, PartialEq, Eq)]
pub struct Config {
    pub host: String,
    pub port: Option<u16>,
}

/// Holds the configuration until the connection is made.
pub struct ServiceBuilder {
    pub config: Config,
}

impl ServiceBuilder {
    pub fn new(config: Config) -> (r: Self)
        ensures
            r.config == config,
    {
        Self { config }
    }
}

} // verus!
