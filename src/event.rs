//! Lifecycle events of a download job, and their mathematical model.
use vstd::prelude::*;

verus! {

/// An event published on a job's progress hub.
#[derive(Clone, Debug, PartialEq, Eq)]
pub enum ProgressEvent {
    /// A raw progress line of the downloader.
    Progress(String),
    /// A fixed, human-readable milestone message.
    Info(String),
    /// A failure; terminal.
    Error(String),
    /// The produced file's name; terminal.
    Complete(String),
    /// The user cancelled the job; terminal.
    Canceled,
    /// Synthetic marker for an observer that fell behind.
    Lagged,
}

/// Model of a [`ProgressEvent`]: its text as a sequence of characters.
pub enum EventView {
    Progress(Seq<char>),
    Info(Seq<char>),
    Error(Seq<char>),
    Complete(Seq<char>),
    Canceled,
    Lagged,
}

impl View for ProgressEvent {
    type V = EventView;

    open spec fn view(&self) -> EventView {
        match self {
            ProgressEvent::Progress(s) => EventView::Progress(s@),
            ProgressEvent::Info(s) => EventView::Info(s@),
            ProgressEvent::Error(s) => EventView::Error(s@),
            ProgressEvent::Complete(s) => EventView::Complete(s@),
            ProgressEvent::Canceled => EventView::Canceled,
            ProgressEvent::Lagged => EventView::Lagged,
        }
    }
}

impl EventView {
    /// Terminal events end a job: nothing is published after one.
    pub open spec fn is_terminal(self) -> bool {
        self is Error || self is Complete || self is Canceled
    }
}

/// The models of a sequence of events.
pub open spec fn events_view(v: Seq<ProgressEvent>) -> Seq<EventView> {
    v.map_values(|e: ProgressEvent| e@)
}

impl ProgressEvent {
    /// Whether this event ends the job.
    pub fn is_terminal(&self) -> (r: bool)
        ensures
            r == self@.is_terminal(),
    {
        match self {
            ProgressEvent::Error(_) | ProgressEvent::Complete(_) | ProgressEvent::Canceled => true,
            _ => false,
        }
    }
}

/// How many terminal events `evs` holds.
pub open spec fn terminal_count(evs: Seq<EventView>) -> nat
    decreases evs.len(),
{
    if evs.len() == 0 {
        0
    } else {
        terminal_count(evs.drop_last()) + if evs.last().is_terminal() {
            1nat
        } else {
            0nat
        }
    }
}

pub proof fn lemma_terminal_count_add(a: Seq<EventView>, b: Seq<EventView>)
    ensures
        terminal_count(a + b) == terminal_count(a) + terminal_count(b),
    decreases b.len(),
{
    if b.len() > 0 {
        assert((a + b).drop_last() =~= a + b.drop_last());
        lemma_terminal_count_add(a, b.drop_last());
    } else {
        assert(a + b =~= a);
    }
}

pub proof fn lemma_terminal_count_one(e: EventView)
    ensures
        terminal_count(seq![e]) == if e.is_terminal() {
            1nat
        } else {
            0nat
        },
{
    reveal_with_fuel(terminal_count, 2);
    assert(seq![e].drop_last() =~= Seq::<EventView>::empty());
}

} // verus!
