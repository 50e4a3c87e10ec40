use media_fetch::classify::{classify_stderr, classify_stdout};
use media_fetch::event::ProgressEvent;

fn info(s: &str) -> ProgressEvent {
    ProgressEvent::Info(s.to_string())
}

#[test]
fn destination_line_yields_nothing() {
    assert_eq!(classify_stdout("[download] Destination: x.mp4"), vec![]);
}

#[test]
fn progress_line_is_relayed() {
    assert_eq!(
        classify_stdout("download: 45.2%"),
        vec![ProgressEvent::Progress("download: 45.2%".to_string())]
    );
}

#[test]
fn percent_alone_marks_progress() {
    assert_eq!(
        classify_stdout("[download]  12.0% of 3.00MiB"),
        vec![ProgressEvent::Progress("[download]  12.0% of 3.00MiB".to_string())]
    );
}

#[test]
fn stderr_error_line_is_an_error() {
    assert_eq!(
        classify_stderr("ERROR: network unreachable"),
        Some(ProgressEvent::Error("ERROR: network unreachable".to_string()))
    );
}

#[test]
fn stderr_error_is_found_in_any_case() {
    assert_eq!(
        classify_stderr("Fatal ErRoR here"),
        Some(ProgressEvent::Error("Fatal ErRoR here".to_string()))
    );
}

#[test]
fn stderr_warning_is_dropped() {
    assert_eq!(classify_stderr("WARNING: slow connection"), None);
}

#[test]
fn webpage_milestone() {
    assert_eq!(
        classify_stdout("[youtube] abc: Downloading webpage"),
        vec![info("Proses pengunduhan halaman dimulai.")]
    );
}

#[test]
fn audio_extraction_gives_both_milestones() {
    assert_eq!(
        classify_stdout("[ExtractAudio] Extracting audio from x.webm"),
        vec![info("Proses ekstraksi dimulai."), info("Proses ekstraksi audio dimulai.")]
    );
}

#[test]
fn merge_milestone() {
    assert_eq!(
        classify_stdout("[Merger] Merging formats into \"x.mp4\""),
        vec![info("Proses penggabungan format dimulai.")]
    );
}

#[test]
fn progress_wins_over_milestones() {
    assert_eq!(
        classify_stdout("Extracting 50%"),
        vec![ProgressEvent::Progress("Extracting 50%".to_string())]
    );
}

#[test]
fn empty_line_yields_nothing() {
    assert_eq!(classify_stdout(""), vec![]);
    assert_eq!(classify_stderr(""), None);
}
