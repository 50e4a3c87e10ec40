//! Turns raw output lines of the downloader into progress events.
use vstd::prelude::*;
use crate::event::{EventView, ProgressEvent, events_view};
use crate::text::{contains_str, has_substring};

verus! {

/// Marker that the downloader's progress template prints.
pub const PROGRESS_MARKER: &'static str = "download:";
/// A percentage sign marks a progress line too.
pub const PERCENT_MARKER: &'static str = "%";
/// Milestone: the page of the media is being fetched.
pub const WEBPAGE_TRIGGER: &'static str = "Downloading webpage";
/// Milestone: extraction started.
pub const EXTRACT_TRIGGER: &'static str = "Extracting";
/// Milestone: audio extraction started.
pub const AUDIO_TRIGGER: &'static str = "Extracting audio";
/// Milestone: formats are being merged.
pub const MERGE_TRIGGER: &'static str = "Merging formats into";
/// A stderr line whose lower-case form holds this reports an error.
pub const ERROR_TRIGGER: &'static str = "error";

/// Message published for [`WEBPAGE_TRIGGER`].
pub const WEBPAGE_MSG: &'static str = "Proses pengunduhan halaman dimulai.";
/// Message published for [`EXTRACT_TRIGGER`].
pub const EXTRACT_MSG: &'static str = "Proses ekstraksi dimulai.";
/// Message published for [`AUDIO_TRIGGER`].
pub const AUDIO_MSG: &'static str = "Proses ekstraksi audio dimulai.";
/// Message published for [`MERGE_TRIGGER`].
pub const MERGE_MSG: &'static str = "Proses penggabungan format dimulai.";

/// What `str::to_lowercase` gives for a sequence of characters.
pub uninterp spec fn lower_of(s: Seq<char>) -> Seq<char>;

/// Relies on `str::to_lowercase`: Unicode lower-casing, a function of the characters alone.
#[verifier::external_body]
fn lowercase(s: &str) -> (r: String)
    ensures
        r@ == lower_of(s@),
{
    s.to_lowercase()
}

/// A stdout line that reports download progress.
pub open spec fn is_progress_line(line: Seq<char>) -> bool {
    has_substring(line, PROGRESS_MARKER@) || has_substring(line, PERCENT_MARKER@)
}

/// `seq![Info(msg)]` when `hit`, else nothing.
pub open spec fn info_if(hit: bool, msg: Seq<char>) -> Seq<EventView> {
    if hit {
        seq![EventView::Info(msg)]
    } else {
        Seq::empty()
    }
}

/// Events for one stdout line: a progress line is relayed as it is; otherwise
/// each milestone it mentions gives its message, in a fixed order.
pub open spec fn stdout_events(line: Seq<char>) -> Seq<EventView> {
    if is_progress_line(line) {
        seq![EventView::Progress(line)]
    } else {
        info_if(has_substring(line, WEBPAGE_TRIGGER@), WEBPAGE_MSG@)
            + info_if(has_substring(line, EXTRACT_TRIGGER@), EXTRACT_MSG@)
            + info_if(has_substring(line, AUDIO_TRIGGER@), AUDIO_MSG@)
            + info_if(has_substring(line, MERGE_TRIGGER@), MERGE_MSG@)
    }
}

/// Event for one stderr line: an error when its lower-case form mentions one.
pub open spec fn stderr_event(line: Seq<char>) -> Option<EventView> {
    if has_substring(lower_of(line), ERROR_TRIGGER@) {
        Some(EventView::Error(line))
    } else {
        None
    }
}

fn push_info_if(out: &mut Vec<ProgressEvent>, line: &str, trigger: &str, msg: &str)
    ensures
        events_view(final(out)@) == events_view(old(out)@) + info_if(
            has_substring(line@, trigger@),
            msg@,
        ),
{
    if contains_str(line, trigger) {
        out.push(ProgressEvent::Info(msg.to_owned()));
        assert(events_view(final(out)@) =~= events_view(old(out)@) + seq![EventView::Info(msg@)]);
    } else {
        assert(events_view(final(out)@) =~= events_view(old(out)@) + Seq::<EventView>::empty());
    }
}

/// Classifies one line of the downloader's standard output.
pub fn classify_stdout(line: &str) -> (r: Vec<ProgressEvent>)
    ensures
        events_view(r@) == stdout_events(line@),
{
    let mut out: Vec<ProgressEvent> = Vec::new();
    if contains_str(line, PROGRESS_MARKER) || contains_str(line, PERCENT_MARKER) {
        out.push(ProgressEvent::Progress(line.to_owned()));
        assert(events_view(out@) =~= seq![EventView::Progress(line@)]);
        return out;
    }
    assert(events_view(out@) =~= Seq::<EventView>::empty());
    push_info_if(&mut out, line, WEBPAGE_TRIGGER, WEBPAGE_MSG);
    push_info_if(&mut out, line, EXTRACT_TRIGGER, EXTRACT_MSG);
    push_info_if(&mut out, line, AUDIO_TRIGGER, AUDIO_MSG);
    push_info_if(&mut out, line, MERGE_TRIGGER, MERGE_MSG);
    assert(events_view(out@) =~= stdout_events(line@));
    out
}

/// Classifies one line of the downloader's standard error.
pub fn classify_stderr(line: &str) -> (r: Option<ProgressEvent>)
    ensures
        match r {
            Some(e) => stderr_event(line@) == Some(e@),
            None => stderr_event(line@) is None,
        },
{
    let lower = lowercase(line);
    if contains_str(lower.as_str(), ERROR_TRIGGER) {
        Some(ProgressEvent::Error(line.to_owned()))
    } else {
        None
    }
}

} // verus!
