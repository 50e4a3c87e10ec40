//! What an observer of a job relays: each delivery from the job's hub
//! becomes at most one server-sent-event frame, and the stream ends after
//! the first terminal event or when the hub closes.
use vstd::prelude::*;
use crate::event::{
    EventView, ProgressEvent, lemma_terminal_count_add, lemma_terminal_count_one, terminal_count,
};
use crate::text::joined;

verus! {

/// What an observer's receive handle reported.
#[derive(Clone, Debug, PartialEq, Eq)]
pub enum Delivery {
    /// An event, in the order it was published.
    Event(ProgressEvent),
    /// The observer fell behind and missed some events.
    Lagged,
    /// The hub is gone.
    Closed,
}

/// Model of a [`Delivery`].
pub enum DeliveryView {
    Event(EventView),
    Lagged,
    Closed,
}

impl View for Delivery {
    type V = DeliveryView;

    open spec fn view(&self) -> DeliveryView {
        match self {
            Delivery::Event(e) => DeliveryView::Event(e@),
            Delivery::Lagged => DeliveryView::Lagged,
            Delivery::Closed => DeliveryView::Closed,
        }
    }
}

/// Frame text of the cancellation event.
pub const CANCELED_FRAME: &'static str = "data: CANCELED: Unduhan dibatalkan user.\n\n";
/// Frame text of the marker for an observer that fell behind.
pub const LAGGED_FRAME: &'static str = "data: tertinggal\n\n";
/// Start of a plain data frame.
pub const DATA_HEAD: &'static str = "data: ";
/// Start of an informational data frame.
pub const INFO_HEAD: &'static str = "data: INFO: ";
/// Start of an error frame.
pub const ERROR_HEAD: &'static str = "event: error\ndata: ";
/// Start of a completion frame.
pub const COMPLETE_HEAD: &'static str = "event: complete\ndata: ";
/// End of every frame.
pub const FRAME_END: &'static str = "\n\n";

/// The server-sent-event frame of an event.
pub open spec fn frame_of(e: EventView) -> Seq<char> {
    match e {
        EventView::Progress(l) => DATA_HEAD@ + l + FRAME_END@,
        EventView::Info(m) => INFO_HEAD@ + m + FRAME_END@,
        EventView::Error(m) => ERROR_HEAD@ + m + FRAME_END@,
        EventView::Complete(f) => COMPLETE_HEAD@ + f + FRAME_END@,
        EventView::Canceled => CANCELED_FRAME@,
        EventView::Lagged => LAGGED_FRAME@,
    }
}

fn framed(head: &str, body: &str) -> (r: String)
    ensures
        r@ == head@ + body@ + FRAME_END@,
{
    let mut r = joined(head, body);
    r.append(FRAME_END);
    r
}

/// The server-sent-event frame of `e`.
pub fn sse_frame(e: &ProgressEvent) -> (r: String)
    ensures
        r@ == frame_of(e@),
{
    match e {
        ProgressEvent::Progress(l) => framed(DATA_HEAD, l.as_str()),
        ProgressEvent::Info(m) => framed(INFO_HEAD, m.as_str()),
        ProgressEvent::Error(m) => framed(ERROR_HEAD, m.as_str()),
        ProgressEvent::Complete(f) => framed(COMPLETE_HEAD, f.as_str()),
        ProgressEvent::Canceled => CANCELED_FRAME.to_owned(),
        ProgressEvent::Lagged => LAGGED_FRAME.to_owned(),
    }
}

/// The event an observer relays for a delivery, if any.
pub open spec fn relayed_event(d: DeliveryView) -> Option<EventView> {
    match d {
        DeliveryView::Event(e) => Some(e),
        DeliveryView::Lagged => Some(EventView::Lagged),
        DeliveryView::Closed => None,
    }
}

/// Whether an observer stops after a delivery.
pub open spec fn ends_observation(d: DeliveryView) -> bool {
    match d {
        DeliveryView::Event(e) => e.is_terminal(),
        DeliveryView::Lagged => false,
        DeliveryView::Closed => true,
    }
}

/// What an observer does with one delivery.
pub struct ObserverStep {
    /// The frame to send, if any.
    pub frame: Option<String>,
    /// Whether the stream ends here.
    pub done: bool,
}

/// Handles one delivery: an event is relayed as its frame, a lag as the
/// lag marker's frame; the stream ends after a terminal event or a close.
pub fn observe(d: &Delivery) -> (r: ObserverStep)
    ensures
        r.done == ends_observation(d@),
        match relayed_event(d@) {
            Some(e) => r.frame matches Some(f) && f@ == frame_of(e),
            None => r.frame is None,
        },
{
    match d {
        Delivery::Event(e) => ObserverStep { frame: Some(sse_frame(e)), done: e.is_terminal() },
        Delivery::Lagged => ObserverStep { frame: Some(LAGGED_FRAME.to_owned()), done: false },
        Delivery::Closed => ObserverStep { frame: None, done: true },
    }
}

/// The events an observer relays, in order, from a sequence of deliveries.
pub open spec fn relayed(ds: Seq<DeliveryView>) -> Seq<EventView>
    decreases ds.len(),
{
    if ds.len() == 0 {
        Seq::empty()
    } else {
        match relayed_event(ds[0]) {
            Some(e) => if ends_observation(ds[0]) {
                seq![e]
            } else {
                seq![e] + relayed(ds.drop_first())
            },
            None => Seq::empty(),
        }
    }
}

/// `ds[k]` is the first terminal event of `ds`, and the hub did not close before it.
pub open spec fn first_terminal_at(ds: Seq<DeliveryView>, k: int) -> bool {
    &&& 0 <= k < ds.len()
    &&& ds[k] matches DeliveryView::Event(e) && e.is_terminal()
    &&& forall|j: int| 0 <= j < k ==> !ends_observation(#[trigger] ds[j])
}

/// An observer that is delivered a terminal event, with no close before it,
/// relays that event exactly once, and relays nothing after it.
pub proof fn lemma_observer_ends_on_terminal(ds: Seq<DeliveryView>, k: int)
    requires
        first_terminal_at(ds, k),
    ensures
        terminal_count(relayed(ds)) == 1,
        relayed(ds).len() > 0,
        relayed(ds).last() == relayed_event(ds[k])->0,
    decreases k,
{
    let e = relayed_event(ds[0])->0;
    lemma_terminal_count_one(e);
    if k > 0 {
        let rest = ds.drop_first();
        assert(!ends_observation(ds[0]));
        assert forall|j: int| 0 <= j < k - 1 implies !ends_observation(#[trigger] rest[j]) by {
            assert(rest[j] == ds[j + 1]);
        }
        assert(rest[k - 1] == ds[k]);
        lemma_observer_ends_on_terminal(rest, k - 1);
        lemma_terminal_count_add(seq![e], relayed(rest));
    }
}

/// Observers of the same job see the same terminal event: two observers
/// whose deliveries carry the same first terminal event each relay it
/// exactly once, as their last event.
pub proof fn lemma_observers_agree(a: Seq<DeliveryView>, ka: int, b: Seq<DeliveryView>, kb: int)
    requires
        first_terminal_at(a, ka),
        first_terminal_at(b, kb),
        a[ka] == b[kb],
    ensures
        terminal_count(relayed(a)) == 1,
        terminal_count(relayed(b)) == 1,
        relayed(a).last() == relayed(b).last(),
{
    lemma_observer_ends_on_terminal(a, ka);
    lemma_observer_ends_on_terminal(b, kb);
}

} // verus!
