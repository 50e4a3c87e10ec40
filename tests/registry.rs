use media_fetch::event::ProgressEvent;
use media_fetch::job::{DownloadFormat, JobId, Submission};
use media_fetch::registry::{CancelOutcome, Registry};
use media_fetch::service::{cancel_reply, start_job};

#[test]
fn cancel_fires_once() {
    let mut reg = Registry::new();
    let id = JobId { value: 7 };
    let mut handles = reg.register(id);
    assert_eq!(reg.cancel(id), CancelOutcome::Accepted);
    assert_eq!(reg.cancel(id), CancelOutcome::NotFound);
    assert!(handles.cancel.try_recv().is_ok());
}

#[test]
fn cancel_after_disarm_is_not_found() {
    let mut reg = Registry::new();
    let id = JobId { value: 8 };
    let mut handles = reg.register(id);
    reg.disarm(id);
    assert_eq!(reg.cancel(id), CancelOutcome::NotFound);
    assert!(handles.cancel.try_recv().is_err());
    assert!(reg.subscribe(id).is_some());
}

#[test]
fn late_observer_is_told_not_found() {
    let mut reg = Registry::new();
    let id = JobId { value: 9 };
    let _handles = reg.register(id);
    reg.deregister(id);
    assert!(reg.subscribe(id).is_none());
    assert_eq!(reg.cancel(id), CancelOutcome::NotFound);
}

#[test]
fn unknown_job_is_not_found() {
    let mut reg = Registry::new();
    assert!(reg.subscribe(JobId { value: 1 }).is_none());
    assert_eq!(reg.cancel(JobId { value: 1 }), CancelOutcome::NotFound);
}

#[test]
fn observers_share_the_terminal_event() {
    let mut reg = Registry::new();
    let id = JobId { value: 10 };
    let handles = reg.register(id);
    let mut a = reg.subscribe(id).unwrap();
    let mut b = reg.subscribe(id).unwrap();
    handles.hub.send(ProgressEvent::Progress("download: 1%".to_string())).unwrap();
    handles.hub.send(ProgressEvent::Complete("x.mp4".to_string())).unwrap();
    for rx in [&mut a, &mut b] {
        assert_eq!(rx.try_recv().unwrap(), ProgressEvent::Progress("download: 1%".to_string()));
        assert_eq!(rx.try_recv().unwrap(), ProgressEvent::Complete("x.mp4".to_string()));
    }
}

#[test]
fn observer_only_sees_later_events() {
    let mut reg = Registry::new();
    let id = JobId { value: 11 };
    let handles = reg.register(id);
    let _keep = reg.subscribe(id).unwrap();
    handles.hub.send(ProgressEvent::Info("a".to_string())).unwrap();
    let mut late = reg.subscribe(id).unwrap();
    handles.hub.send(ProgressEvent::Canceled).unwrap();
    assert_eq!(late.try_recv().unwrap(), ProgressEvent::Canceled);
}

#[test]
fn started_job_is_registered_with_its_command() {
    let mut reg = Registry::new();
    let id = JobId { value: 0x67e5504410b1426f9247bb680e5fe0c8 };
    let sub = Submission { url: "https://e.example/v".to_string(), format: DownloadFormat::Mp3 };
    let job = start_job(&mut reg, id, &sub);
    assert_eq!(job.id, id);
    assert_eq!(job.args[1], "downloads/67e55044-10b1-426f-9247-bb680e5fe0c8.%(ext)s");
    assert_eq!(job.args[2], "https://e.example/v");
    assert!(reg.subscribe(id).is_some());
    assert_eq!(reg.cancel(id), CancelOutcome::Accepted);
}

#[test]
fn cancel_replies() {
    assert_eq!(cancel_reply(CancelOutcome::Accepted), (200, "Proses pembatalan unduhan dimulai."));
    assert_eq!(
        cancel_reply(CancelOutcome::NotFound),
        (404, "ID unduhan tidak ditemukan atau sudah selesai.")
    );
}
