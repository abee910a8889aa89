//! What the chat side shows of the status: the bot's presence, the status
//! embeds, and when a job gets a thread of its own.
use vstd::prelude::*;

pub mod job_status;

use crate::moonraker::status::{State, StateView, Status, StatusView};
use crate::text::{decimal, decimal_string};

verus! {

/// Where the bot posts and whom it writes to.
#[derive(Clone, Debug, PartialEq, Eq)]
pub struct Config {
    pub token: String,
    pub user_id: u64,
    pub channel_id: u64,
}

/// Holds the configuration until the chat client is made.
pub struct ServiceBuilder {
    pub config: Config,
}

impl ServiceBuilder {
    pub fn new(config: Config) -> (r: Self)
        ensures
            r.config == config,
    {
        Self { config }
    }
}

/// The online status that the bot shows.
#[derive(Clone, Copy, Debug, PartialEq, Eq, Structural)]
pub enum OnlineKind {
    Online,
    Idle,
    DoNotDisturb,
}

/// The bot's presence: a short activity text and an online status.
#[derive(Debug, PartialEq, Eq)]
pub struct Presence {
    pub activity: String,
    pub online: OnlineKind,
}

/// The activity text that a state shows.
pub open spec fn activity_of(v: StateView) -> Seq<char> {
    match v {
        StateView::Disconnected => "Disconnected"@,
        StateView::Printing => "Printing"@,
        StateView::Paused => "Paused"@,
        StateView::Startup | StateView::Standby | StateView::Complete => "Ready"@,
        StateView::Shutdown(_) => "Shutdown"@,
        StateView::Error(_) => "Error"@,
    }
}

/// The online status that a state shows.
pub open spec fn online_of(v: StateView) -> OnlineKind {
    match v {
        StateView::Printing => OnlineKind::DoNotDisturb,
        StateView::Paused | StateView::Startup | StateView::Standby | StateView::Complete => OnlineKind::Online,
        _ => OnlineKind::Idle,
    }
}

/// The presence that shows a state.
pub fn presence_of(state: &State) -> (r: Presence)
    ensures
        r.activity@ == activity_of(state@),
        r.online == online_of(state@),
{
    match state {
        State::Disconnected => Presence {
            activity: String::from_str("Disconnected"),
            online: OnlineKind::Idle,
        },
        State::Printing => Presence {
            activity: String::from_str("Printing"),
            online: OnlineKind::DoNotDisturb,
        },
        State::Paused => Presence { activity: String::from_str("Paused"), online: OnlineKind::Online },
        State::Startup | State::Standby | State::Complete => Presence {
            activity: String::from_str("Ready"),
            online: OnlineKind::Online,
        },
        State::Shutdown(_) => Presence {
            activity: String::from_str("Shutdown"),
            online: OnlineKind::Idle,
        },
        State::Error(_) => Presence { activity: String::from_str("Error"), online: OnlineKind::Idle },
    }
}

/// One field of an embed.
#[derive(Debug, PartialEq, Eq)]
pub struct EmbedField {
    pub name: String,
    pub value: String,
    pub inline: bool,
}

/// A rich message block: a title, an optional description and fields.
#[derive(Debug, PartialEq, Eq)]
pub struct Embed {
    pub title: String,
    pub description: Option<String>,
    pub fields: Vec<EmbedField>,
}

pub struct EmbedFieldView {
    pub name: Seq<char>,
    pub value: Seq<char>,
    pub inline: bool,
}

pub struct EmbedView {
    pub title: Seq<char>,
    pub description: Option<Seq<char>>,
    pub fields: Seq<EmbedFieldView>,
}

impl View for EmbedField {
    type V = EmbedFieldView;

    open spec fn view(&self) -> EmbedFieldView {
        EmbedFieldView { name: self.name@, value: self.value@, inline: self.inline }
    }
}

pub open spec fn fields_view(fields: Seq<EmbedField>) -> Seq<EmbedFieldView> {
    fields.map_values(|f: EmbedField| f@)
}

impl View for Embed {
    type V = EmbedView;

    open spec fn view(&self) -> EmbedView {
        EmbedView {
            title: self.title@,
            description: match self.description {
                Some(d) => Some(d@),
                None => None,
            },
            fields: fields_view(self.fields@),
        }
    }
}

pub open spec fn embeds_view(embeds: Seq<Embed>) -> Seq<EmbedView> {
    embeds.map_values(|e: Embed| e@)
}

/// Layer progress as "current / total".
pub open spec fn layer_text(current: u16, total: u16) -> Seq<char> {
    decimal(current as nat) + " / "@ + decimal(total as nat)
}

/// Renders layer progress as "current / total".
pub fn layer_string(current: u16, total: u16) -> (r: String)
    ensures
        r@ == layer_text(current, total),
{
    decimal_string(current as u64).concat(" / ").concat(decimal_string(total as u64).as_str())
}

/// The embeds that show a snapshot: none without a printer part, else one
/// "Job status" embed that gives the job's layers or says there is no job.
pub open spec fn status_embeds_of(v: StatusView) -> Seq<EmbedView> {
    match v.printer {
        None => Seq::empty(),
        Some(p) => match p.job {
            None => seq![
                EmbedView {
                    title: "Job status"@,
                    description: Some("No job"@),
                    fields: Seq::empty(),
                },
            ],
            Some(job) => seq![
                EmbedView {
                    title: "Job status"@,
                    description: None,
                    fields: seq![
                        EmbedFieldView {
                            name: "Layer"@,
                            value: layer_text(job.current_layer, job.total_layer),
                            inline: true,
                        },
                    ],
                },
            ],
        },
    }
}

/// Builds the embeds that show a snapshot.
pub fn status_embeds(status: &Status) -> (r: Vec<Embed>)
    ensures
        embeds_view(r@) == status_embeds_of(status@),
{
    let mut embeds: Vec<Embed> = Vec::new();
    match &status.printer {
        None => {},
        Some(printer) => match &printer.job {
            None => {
                let embed = Embed {
                    title: String::from_str("Job status"),
                    description: Some(String::from_str("No job")),
                    fields: Vec::new(),
                };
                embeds.push(embed);
                assert(fields_view(embeds@[0].fields@) =~= Seq::empty());
            },
            Some(job) => {
                let mut fields: Vec<EmbedField> = Vec::new();
                let field = EmbedField {
                    name: String::from_str("Layer"),
                    value: layer_string(job.current_layer, job.total_layer),
                    inline: true,
                };
                fields.push(field);
                let embed = Embed { title: String::from_str("Job status"), description: None, fields };
                embeds.push(embed);
                assert(fields_view(embeds@[0].fields@) =~= seq![field@]);
            },
        },
    }
    assert(embeds_view(embeds@) =~= status_embeds_of(status@));
    embeds
}

/// The file name of the job that a snapshot shows, if any.
pub open spec fn job_file(v: StatusView) -> Option<Seq<char>> {
    match v.printer {
        Some(p) => match p.job {
            Some(job) => Some(job.file_name),
            None => None,
        },
        None => None,
    }
}

/// What to do in the prints channel after a status change.
#[derive(Debug, PartialEq, Eq)]
pub enum ThreadAction {
    /// No job is shown: nothing.
    Nothing,
    /// A job with a new file name: open a thread of that name and post the
    /// status there.
    Open(String),
    /// The same job as before: update the status posted in its thread.
    Update,
}

/// Remembers the file name of the job whose thread was opened last.
#[derive(Debug)]
pub struct ThreadTracker {
    pub current_file_name: String,
}

impl ThreadTracker {
    pub fn new() -> (r: ThreadTracker)
        ensures
            r.current_file_name@ == Seq::<char>::empty(),
    {
        ThreadTracker { current_file_name: String::new() }
    }

    /// Decides what a new snapshot asks of the job threads.
    pub fn on_status(&mut self, status: &Status) -> (r: ThreadAction)
        ensures
            match job_file(status@) {
                None => r is Nothing && final(self).current_file_name@
                    == old(self).current_file_name@,
                Some(f) => if f == old(self).current_file_name@ {
                    r is Update && final(self).current_file_name@ == f
                } else {
                    r matches ThreadAction::Open(name) && name@ == f
                        && final(self).current_file_name@ == f
                },
            },
    {
        match &status.printer {
            Some(printer) => match &printer.job {
                Some(job) => {
                    if job.file_name == self.current_file_name {
                        ThreadAction::Update
                    } else {
                        self.current_file_name = job.file_name.clone();
                        ThreadAction::Open(job.file_name.clone())
                    }
                },
                None => ThreadAction::Nothing,
            },
            None => ThreadAction::Nothing,
        }
    }
}

} // verus!
