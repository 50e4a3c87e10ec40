use media_fetch::event::ProgressEvent;
use media_fetch::supervisor::{Effect, JobInput, Phase, Stream, Supervisor};

fn drive(sup: &mut Supervisor, inputs: Vec<JobInput>) -> (Vec<ProgressEvent>, Vec<Effect>) {
    let mut events = Vec::new();
    let mut effects = Vec::new();
    for i in inputs {
        let r = sup.step(i);
        events.extend(r.events);
        effects.extend(r.effects);
    }
    (events, effects)
}

fn line(st: Stream, s: &str) -> JobInput {
    JobInput::Line(st, s.to_string())
}

fn terminal_count(evs: &[ProgressEvent]) -> usize {
    evs.iter().filter(|e| e.is_terminal()).count()
}

#[test]
fn natural_completion() {
    let mut sup = Supervisor::new();
    let (events, effects) = drive(
        &mut sup,
        vec![
            JobInput::Spawned,
            line(Stream::Stdout, "download: 45.2%"),
            JobInput::Closed(Stream::Stdout),
            JobInput::Closed(Stream::Stderr),
            JobInput::Exited(true),
            JobInput::ArtifactScanned(Some("abc.mp4".to_string())),
            JobInput::GraceElapsed,
        ],
    );
    assert_eq!(
        events,
        vec![
            ProgressEvent::Progress("download: 45.2%".to_string()),
            ProgressEvent::Complete("abc.mp4".to_string()),
        ]
    );
    assert_eq!(
        effects,
        vec![Effect::DisarmCancel, Effect::AwaitExit, Effect::ScanArtifacts, Effect::Linger, Effect::Deregister]
    );
    assert_eq!(sup.phase, Phase::Done);
}

#[test]
fn missing_artifact_is_an_error() {
    let mut sup = Supervisor::new();
    let (events, _) = drive(
        &mut sup,
        vec![
            JobInput::Spawned,
            JobInput::Closed(Stream::Stderr),
            JobInput::Closed(Stream::Stdout),
            JobInput::Exited(true),
            JobInput::ArtifactScanned(None),
        ],
    );
    assert_eq!(
        events,
        vec![ProgressEvent::Error("Gagal mengunduh atau file tidak ditemukan.".to_string())]
    );
    assert_eq!(sup.phase, Phase::Lingering);
}

#[test]
fn failed_exit_is_an_error() {
    let mut sup = Supervisor::new();
    let (events, effects) = drive(
        &mut sup,
        vec![JobInput::Spawned, JobInput::Closed(Stream::Stdout), JobInput::Closed(Stream::Stderr), JobInput::Exited(false)],
    );
    assert_eq!(
        events,
        vec![ProgressEvent::Error("Gagal mengunduh atau file tidak ditemukan.".to_string())]
    );
    assert_eq!(effects, vec![Effect::DisarmCancel, Effect::AwaitExit, Effect::Linger]);
}

#[test]
fn spawn_failure_ends_the_job() {
    let mut sup = Supervisor::new();
    let (events, effects) = drive(
        &mut sup,
        vec![JobInput::SpawnFailed("not found".to_string()), JobInput::GraceElapsed],
    );
    assert_eq!(
        events,
        vec![ProgressEvent::Error("Gagal menjalankan yt-dlp: not found".to_string())]
    );
    assert_eq!(effects, vec![Effect::DisarmCancel, Effect::Linger, Effect::Deregister]);
    assert_eq!(sup.phase, Phase::Done);
}

#[test]
fn cancellation_is_terminal() {
    let mut sup = Supervisor::new();
    let (events, effects) = drive(
        &mut sup,
        vec![
            JobInput::Spawned,
            JobInput::CancelFired,
            JobInput::CancelFired,
            JobInput::KillDone,
            JobInput::Exited(false),
            JobInput::GraceElapsed,
        ],
    );
    assert_eq!(
        events,
        vec![
            ProgressEvent::Info("Proses pembatalan unduhan dimulai.".to_string()),
            ProgressEvent::Canceled,
        ]
    );
    assert_eq!(
        effects,
        vec![Effect::Kill, Effect::DisarmCancel, Effect::AwaitExit, Effect::Linger, Effect::Deregister]
    );
}

#[test]
fn failed_kill_is_an_error() {
    let mut sup = Supervisor::new();
    let (events, _) = drive(
        &mut sup,
        vec![JobInput::Spawned, JobInput::CancelFired, JobInput::KillFailed("denied".to_string()), JobInput::Exited(true)],
    );
    assert_eq!(
        events,
        vec![
            ProgressEvent::Info("Proses pembatalan unduhan dimulai.".to_string()),
            ProgressEvent::Error("Gagal membatalkan unduhan: denied".to_string()),
        ]
    );
    assert_eq!(sup.phase, Phase::Lingering);
}

#[test]
fn cancel_while_finishing_changes_nothing() {
    let mut a = Supervisor::new();
    let mut b = Supervisor::new();
    let common = || vec![JobInput::Spawned, JobInput::Closed(Stream::Stdout), JobInput::Closed(Stream::Stderr)];
    let (mut ea, _) = drive(&mut a, common());
    let (mut eb, _) = drive(&mut b, common());
    let (xa, fa) = drive(&mut a, vec![JobInput::CancelFired]);
    assert!(xa.is_empty() && fa.is_empty());
    let tail = || vec![JobInput::Exited(true), JobInput::ArtifactScanned(Some("f.mp3".to_string()))];
    ea.extend(drive(&mut a, tail()).0);
    eb.extend(drive(&mut b, tail()).0);
    assert_eq!(ea, eb);
    assert_eq!(ea, vec![ProgressEvent::Complete("f.mp3".to_string())]);
}

#[test]
fn stderr_error_ends_publication() {
    let mut sup = Supervisor::new();
    let (events, _) = drive(
        &mut sup,
        vec![
            JobInput::Spawned,
            line(Stream::Stderr, "ERROR: network unreachable"),
            line(Stream::Stdout, "download: 50%"),
            JobInput::Closed(Stream::Stdout),
            JobInput::Closed(Stream::Stderr),
            JobInput::Exited(true),
            JobInput::GraceElapsed,
        ],
    );
    assert_eq!(events, vec![ProgressEvent::Error("ERROR: network unreachable".to_string())]);
    assert_eq!(terminal_count(&events), 1);
    assert_eq!(sup.phase, Phase::Done);
}

#[test]
fn stream_failure_is_reported_as_terminal_error() {
    let mut sup = Supervisor::new();
    let (events, effects) = drive(
        &mut sup,
        vec![
            JobInput::Spawned,
            JobInput::StreamFailed(Stream::Stdout, "broken pipe".to_string()),
            JobInput::CancelFired,
            JobInput::Exited(true),
        ],
    );
    assert_eq!(events, vec![ProgressEvent::Error("Stdout error: broken pipe".to_string())]);
    assert_eq!(effects, vec![Effect::DisarmCancel, Effect::AwaitExit, Effect::Linger]);
}

#[test]
fn only_one_stream_closed_keeps_running() {
    let mut sup = Supervisor::new();
    let (_, effects) = drive(&mut sup, vec![JobInput::Spawned, JobInput::Closed(Stream::Stdout)]);
    assert!(effects.is_empty());
    assert_eq!(sup.phase, Phase::Running);
    assert!(!sup.stdout_open && sup.stderr_open);
}

#[test]
fn done_ignores_everything() {
    let mut sup = Supervisor::new();
    drive(&mut sup, vec![JobInput::SpawnFailed("x".to_string()), JobInput::GraceElapsed]);
    let (events, effects) = drive(
        &mut sup,
        vec![JobInput::CancelFired, line(Stream::Stderr, "error"), JobInput::Exited(true)],
    );
    assert!(events.is_empty() && effects.is_empty());
}
