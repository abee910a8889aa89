//! The canonical status snapshot and the reconciler that builds it from the
//! daemon's raw fields.
use vstd::prelude::*;

use super::api::{ExcludeObject, PrintStats, PrinterObjectStatus};

verus! {

/// One object of the current job, and whether it was excluded.
#[derive(Clone, Debug, Default, PartialEq, Eq)]
pub struct ObjectInformation {
    pub name: String,
    pub excluded: bool,
}

/// Progress of the current job.
#[derive(Clone, Debug, Default, PartialEq, Eq)]
pub struct JobInfo {
    pub file_name: String,
    pub current_layer: u16,
    pub total_layer: u16,
    pub objects: Vec<ObjectInformation>,
}

#[derive(Clone, Debug, Default, PartialEq, Eq)]
pub struct Printer {
    pub job: Option<JobInfo>,
}

/// The printer's state; exactly one variant is active at a time.
#[derive(Clone, Debug, PartialEq, Eq)]
pub enum State {
    Disconnected,
    Startup,
    Standby,
    Printing,
    Paused,
    Complete,
    Shutdown(String),
    Error(String),
}

/// The canonical snapshot that every reader of the status sees.
#[derive(Clone, Debug, PartialEq, Eq)]
pub struct Status {
    pub printer: Option<Printer>,
    pub state: State,
}

pub struct ObjectInformationView {
    pub name: Seq<char>,
    pub excluded: bool,
}

pub struct JobInfoView {
    pub file_name: Seq<char>,
    pub current_layer: u16,
    pub total_layer: u16,
    pub objects: Seq<ObjectInformationView>,
}

pub struct PrinterView {
    pub job: Option<JobInfoView>,
}

pub enum StateView {
    Disconnected,
    Startup,
    Standby,
    Printing,
    Paused,
    Complete,
    Shutdown(Seq<char>),
    Error(Seq<char>),
}

pub struct StatusView {
    pub printer: Option<PrinterView>,
    pub state: StateView,
}

impl View for ObjectInformation {
    type V = ObjectInformationView;

    open spec fn view(&self) -> ObjectInformationView {
        ObjectInformationView { name: self.name@, excluded: self.excluded }
    }
}

pub open spec fn objects_view(objects: Seq<ObjectInformation>) -> Seq<ObjectInformationView> {
    objects.map_values(|o: ObjectInformation| o@)
}

impl View for JobInfo {
    type V = JobInfoView;

    open spec fn view(&self) -> JobInfoView {
        JobInfoView {
            file_name: self.file_name@,
            current_layer: self.current_layer,
            total_layer: self.total_layer,
            objects: objects_view(self.objects@),
        }
    }
}

impl View for Printer {
    type V = PrinterView;

    open spec fn view(&self) -> PrinterView {
        PrinterView {
            job: match self.job {
                Some(job) => Some(job@),
                None => None,
            },
        }
    }
}

impl View for State {
    type V = StateView;

    open spec fn view(&self) -> StateView {
        match self {
            State::Disconnected => StateView::Disconnected,
            State::Startup => StateView::Startup,
            State::Standby => StateView::Standby,
            State::Printing => StateView::Printing,
            State::Paused => StateView::Paused,
            State::Complete => StateView::Complete,
            State::Shutdown(reason) => StateView::Shutdown(reason@),
            State::Error(message) => StateView::Error(message@),
        }
    }
}

impl View for Status {
    type V = StatusView;

    open spec fn view(&self) -> StatusView {
        StatusView {
            printer: match self.printer {
                Some(printer) => Some(printer@),
                None => None,
            },
            state: self.state@,
        }
    }
}

/// The text that an optional raw string stands for, empty when absent.
pub open spec fn text_or_empty(s: Option<String>) -> Seq<char> {
    match s {
        Some(s) => s@,
        None => Seq::empty(),
    }
}

/// The state that the job statistics report.
pub open spec fn state_of(stats: PrintStats) -> StateView {
    match stats.state {
        None => StateView::Disconnected,
        Some(s) => if s@ == "standby"@ {
            StateView::Standby
        } else if s@ == "printing"@ {
            StateView::Printing
        } else if s@ == "paused"@ {
            StateView::Paused
        } else if s@ == "complete"@ {
            StateView::Complete
        } else if s@ == "error"@ {
            StateView::Error(text_or_empty(stats.message))
        } else {
            StateView::Error("unknown state: "@ + s@)
        },
    }
}

/// A job is shown exactly in these states.
pub open spec fn has_job(state: StateView) -> bool {
    ||| state is Printing
    ||| state is Paused
    ||| state is Complete
}

/// Whether `name` is one of `names`, by exact equality.
pub open spec fn is_listed(names: Seq<String>, name: Seq<char>) -> bool {
    exists|j: int| 0 <= j < names.len() && names[j]@ == name
}

/// Each reported object, paired with whether its name was excluded.
pub open spec fn objects_of(exclude: ExcludeObject) -> Seq<ObjectInformationView> {
    Seq::new(
        exclude.objects@.len(),
        |i: int|
            ObjectInformationView {
                name: exclude.objects@[i].name@,
                excluded: is_listed(exclude.excluded_objects@, exclude.objects@[i].name@),
            },
    )
}

/// The job that the raw fields describe, if their state shows one.
pub open spec fn job_of(raw: PrinterObjectStatus) -> Option<JobInfoView> {
    if has_job(state_of(raw.print_stats)) {
        Some(
            JobInfoView {
                file_name: match raw.print_stats.file_name {
                    Some(f) => f@,
                    None => "unknown"@,
                },
                current_layer: match raw.print_stats.info.current_layer {
                    Some(n) => n,
                    None => 0,
                },
                total_layer: match raw.print_stats.info.total_layer {
                    Some(n) => n,
                    None => 0,
                },
                objects: objects_of(raw.exclude_object),
            },
        )
    } else {
        None
    }
}

/// The snapshot that reconciling `raw` onto `previous` gives. The previous
/// snapshot carries nothing over: every field is rebuilt from `raw`.
pub open spec fn reconciled(previous: StatusView, raw: PrinterObjectStatus) -> StatusView {
    StatusView { printer: Some(PrinterView { job: job_of(raw) }), state: state_of(raw.print_stats) }
}

/// The snapshot before anything is known of the daemon.
pub open spec fn disconnected_view() -> StatusView {
    StatusView { printer: None, state: StateView::Disconnected }
}

/// Exact comparison of a string with a word.
pub fn is_word(s: &String, word: &str) -> (r: bool)
    ensures
        r == (s@ == word@),
{
    let w = String::from_str(word);
    *s == w
}

fn clone_text(s: &String) -> (r: String)
    ensures
        r@ == s@,
{
    s.clone()
}

impl State {
    /// Maps the job statistics' state string to a `State`.
    pub fn from_print_stats(stats: &PrintStats) -> (r: State)
        ensures
            r@ == state_of(*stats),
    {
        match &stats.state {
            None => State::Disconnected,
            Some(s) => {
                if is_word(s, "standby") {
                    State::Standby
                } else if is_word(s, "printing") {
                    State::Printing
                } else if is_word(s, "paused") {
                    // A pause for a timelapse frame reports the same string
                    // as a pause by the user.
                    State::Paused
                } else if is_word(s, "complete") {
                    State::Complete
                } else if is_word(s, "error") {
                    match &stats.message {
                        Some(m) => State::Error(clone_text(m)),
                        None => State::Error(String::new()),
                    }
                } else {
                    State::Error(String::from_str("unknown state: ").concat(s.as_str()))
                }
            },
        }
    }

    /// Whether a job is shown in this state.
    pub fn has_job(&self) -> (r: bool)
        ensures
            r == has_job(self@),
    {
        match self {
            State::Printing | State::Paused | State::Complete => true,
            _ => false,
        }
    }
}

/// Whether `name` is one of `names`.
fn is_excluded(names: &Vec<String>, name: &String) -> (r: bool)
    ensures
        r == is_listed(names@, name@),
{
    let mut j: usize = 0;
    while j < names.len()
        invariant
            j <= names.len(),
            forall|k: int| 0 <= k < j ==> names@[k]@ != name@,
        decreases names.len() - j,
    {
        if names[j] == *name {
            return true;
        }
        j = j + 1;
    }
    false
}

/// Pairs each reported object with whether its name is in the excluded list.
pub fn object_information(exclude: &ExcludeObject) -> (r: Vec<ObjectInformation>)
    ensures
        objects_view(r@) == objects_of(*exclude),
{
    let mut out: Vec<ObjectInformation> = Vec::new();
    let mut i: usize = 0;
    while i < exclude.objects.len()
        invariant
            i <= exclude.objects@.len(),
            objects_view(out@) == objects_of(*exclude).take(i as int),
        decreases exclude.objects@.len() - i,
    {
        let name = clone_text(&exclude.objects[i].name);
        let excluded = is_excluded(&exclude.excluded_objects, &exclude.objects[i].name);
        let item = ObjectInformation { name, excluded };
        let ghost before = out@;
        out.push(item);
        assert(objects_view(out@) =~= objects_view(before).push(item@));
        assert(objects_view(out@) =~= objects_of(*exclude).take(i + 1));
        i = i + 1;
    }
    assert(objects_of(*exclude).take(i as int) =~= objects_of(*exclude));
    out
}

impl Printer {
    /// The printer part of a snapshot: a job exactly when the reported state
    /// shows one, with absent layers read as 0 and an absent file name as
    /// `"unknown"`.
    pub fn from_status(raw: &PrinterObjectStatus) -> (r: Printer)
        ensures
            r@ == (PrinterView { job: job_of(*raw) }),
    {
        let state = State::from_print_stats(&raw.print_stats);
        if state.has_job() {
            let file_name = match &raw.print_stats.file_name {
                Some(f) => clone_text(f),
                None => String::from_str("unknown"),
            };
            let current_layer = match raw.print_stats.info.current_layer {
                Some(n) => n,
                None => 0,
            };
            let total_layer = match raw.print_stats.info.total_layer {
                Some(n) => n,
                None => 0,
            };
            let objects = object_information(&raw.exclude_object);
            Printer { job: Some(JobInfo { file_name, current_layer, total_layer, objects }) }
        } else {
            Printer { job: None }
        }
    }
}

impl Status {
    /// The snapshot of a printer that is not connected.
    pub fn disconnected() -> (r: Status)
        ensures
            r@ == disconnected_view(),
    {
        Status { printer: None, state: State::Disconnected }
    }

    /// Builds the snapshot that the raw fields describe.
    pub fn from_status(raw: &PrinterObjectStatus) -> (r: Status)
        ensures
            r@ == reconciled(disconnected_view(), *raw),
    {
        let printer = Printer::from_status(raw);
        let state = State::from_print_stats(&raw.print_stats);
        Status { printer: Some(printer), state }
    }
}

impl Default for State {
    fn default() -> (r: State)
        ensures
            r@ == StateView::Disconnected,
    {
        State::Disconnected
    }
}

impl Default for Status {
    fn default() -> (r: Status)
        ensures
            r@ == disconnected_view(),
    {
        Status::disconnected()
    }
}

/// How a state reads to a person.
pub open spec fn state_text(v: StateView) -> Seq<char> {
    match v {
        StateView::Disconnected => "Disconnected"@,
        StateView::Startup => "Startup"@,
        StateView::Standby => "Standby"@,
        StateView::Printing => "Printing"@,
        StateView::Paused => "Paused"@,
        StateView::Complete => "Complete"@,
        StateView::Shutdown(reason) => "Shutdown: "@ + reason,
        StateView::Error(message) => "Error: "@ + message,
    }
}

impl State {
    /// The state as a person reads it; a shutdown or an error carries its
    /// text after the name.
    pub fn to_string(&self) -> (r: String)
        ensures
            r@ == state_text(self@),
    {
        match self {
            State::Disconnected => String::from_str("Disconnected"),
            State::Startup => String::from_str("Startup"),
            State::Standby => String::from_str("Standby"),
            State::Printing => String::from_str("Printing"),
            State::Paused => String::from_str("Paused"),
            State::Complete => String::from_str("Complete"),
            State::Shutdown(reason) => String::from_str("Shutdown: ").concat(reason.as_str()),
            State::Error(message) => String::from_str("Error: ").concat(message.as_str()),
        }
    }
}

/// Whether a snapshot holds a job.
pub open spec fn shows_job(v: StatusView) -> bool {
    v.printer matches Some(p) && p.job is Some
}

/// A snapshot holds a job exactly when its state is printing, paused or
/// complete.
pub open spec fn job_matches_state(v: StatusView) -> bool {
    shows_job(v) == has_job(v.state)
}

/// Every reconciled snapshot has a printer part whose job is present exactly
/// when the state is printing, paused or complete; and where the raw fields
/// omit the layers, the job's layers are 0.
pub proof fn lemma_job_iff_active_state(previous: StatusView, raw: PrinterObjectStatus)
    ensures
        reconciled(previous, raw).printer is Some,
        job_matches_state(reconciled(previous, raw)),
        job_of(raw) matches Some(job) ==> {
            &&& raw.print_stats.info.current_layer is None ==> job.current_layer == 0
            &&& raw.print_stats.info.total_layer is None ==> job.total_layer == 0
        },
{
}

/// Reconciling is a function of the raw fields: two calls on the same raw
/// fields give the same snapshot, whatever snapshots they were handed.
pub proof fn lemma_reconcile_deterministic(
    first: StatusView,
    second: StatusView,
    raw: PrinterObjectStatus,
)
    ensures
        reconciled(first, raw) == reconciled(second, raw),
{
}

/// Reconciles the raw fields onto the previous snapshot.
pub fn reconcile(previous: &Status, raw: &PrinterObjectStatus) -> (r: Status)
    ensures
        r@ == reconciled(previous@, *raw),
{
    Status::from_status(raw)
}

} // verus!
