use media_fetch::artifact::{artifact_path, content_disposition, content_type, find_artifact, is_artifact};
use media_fetch::auth::{bearer_token, login_expiries, refresh_expiry, Auth};
use media_fetch::event::ProgressEvent;
use media_fetch::job::JobId;
use media_fetch::relay::{observe, sse_frame, Delivery};
use media_fetch::sweeper::sweep_plan;

const ID: JobId = JobId { value: 0x67e5504410b1426f9247bb680e5fe0c8 };

fn names(v: &[&str]) -> Vec<String> {
    v.iter().map(|s| s.to_string()).collect()
}

#[test]
fn first_matching_artifact_wins() {
    let n = names(&[
        "other.mp4",
        "67e55044-10b1-426f-9247-bb680e5fe0c8.part",
        "67e55044-10b1-426f-9247-bb680e5fe0c8.webm",
        "67e55044-10b1-426f-9247-bb680e5fe0c8.mp3",
    ]);
    assert_eq!(find_artifact(&n, ID), Some("67e55044-10b1-426f-9247-bb680e5fe0c8.webm".to_string()));
}

#[test]
fn no_artifact_found() {
    assert_eq!(find_artifact(&names(&["a.mp4", "b.webm"]), ID), None);
    assert_eq!(find_artifact(&Vec::new(), ID), None);
    assert!(!is_artifact("67e55044-10b1-426f-9247-bb680e5fe0c8.mkv", ID));
}

#[test]
fn artifact_paths_stay_inside() {
    assert_eq!(artifact_path("x.mp4"), Some("downloads/x.mp4".to_string()));
    assert_eq!(artifact_path("../secret"), None);
    assert_eq!(artifact_path("a\\b"), None);
    assert_eq!(artifact_path(".."), None);
    assert_eq!(artifact_path(""), None);
}

#[test]
fn headers_for_delivery() {
    assert_eq!(content_disposition("x.mp4"), "attachment; filename=\"x.mp4\"");
    assert_eq!(content_type("x.mp4"), "video/mp4");
    assert_eq!(content_type("x.mp3"), "audio/mpeg");
    assert_eq!(content_type("x.unknownext"), "application/octet-stream");
}

#[test]
fn sweep_removes_only_old_entries() {
    assert_eq!(sweep_plan(&vec![Some(601), Some(10)]), vec![0]);
    assert_eq!(sweep_plan(&vec![Some(600), None, Some(10_000)]), vec![2]);
    assert_eq!(sweep_plan(&vec![]), Vec::<usize>::new());
}

#[test]
fn frames() {
    assert_eq!(sse_frame(&ProgressEvent::Progress("download: 5%".to_string())), "data: download: 5%\n\n");
    assert_eq!(sse_frame(&ProgressEvent::Info("m".to_string())), "data: INFO: m\n\n");
    assert_eq!(sse_frame(&ProgressEvent::Error("bad".to_string())), "event: error\ndata: bad\n\n");
    assert_eq!(sse_frame(&ProgressEvent::Complete("f.mp4".to_string())), "event: complete\ndata: f.mp4\n\n");
    assert_eq!(sse_frame(&ProgressEvent::Canceled), "data: CANCELED: Unduhan dibatalkan user.\n\n");
    assert_eq!(sse_frame(&ProgressEvent::Lagged), "data: tertinggal\n\n");
}

#[test]
fn observer_steps() {
    let s = observe(&Delivery::Event(ProgressEvent::Info("m".to_string())));
    assert_eq!(s.frame.as_deref(), Some("data: INFO: m\n\n"));
    assert!(!s.done);
    let s = observe(&Delivery::Lagged);
    assert_eq!(s.frame.as_deref(), Some("data: tertinggal\n\n"));
    assert!(!s.done);
    let s = observe(&Delivery::Event(ProgressEvent::Canceled));
    assert!(s.done);
    let s = observe(&Delivery::Closed);
    assert!(s.frame.is_none() && s.done);
}

#[test]
fn bearer_tokens() {
    assert_eq!(bearer_token("Bearer abc.def"), Some("abc.def".to_string()));
    assert_eq!(bearer_token("Bearer "), Some(String::new()));
    assert_eq!(bearer_token("Basic abc"), None);
    assert_eq!(bearer_token(""), None);
    assert_eq!(Auth::new("ana".to_string()).user_id, "ana");
}

#[test]
fn token_lifetimes() {
    assert_eq!(login_expiries(1000), (1120, 605800));
    assert_eq!(refresh_expiry(1000), 4600);
}
