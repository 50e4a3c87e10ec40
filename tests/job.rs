use media_fetch::job::{command_args, output_template, DownloadFormat, FormFields, JobId, SubmitError};

const SAMPLE: u128 = 0x67e5504410b1426f9247bb680e5fe0c8;

fn form(url: Option<&str>, format: Option<&str>) -> FormFields {
    let mut f = FormFields::new();
    if let Some(u) = url {
        f.record("url", u.to_string());
    }
    if let Some(x) = format {
        f.record("format", x.to_string());
    }
    f
}

#[test]
fn id_text_is_hyphenated_lower_hex() {
    assert_eq!(JobId { value: SAMPLE }.text(), "67e55044-10b1-426f-9247-bb680e5fe0c8");
    assert_eq!(JobId { value: 0 }.text(), "00000000-0000-0000-0000-000000000000");
}

#[test]
fn generated_ids_differ() {
    assert_ne!(JobId::generate(), JobId::generate());
}

#[test]
fn template_names_output_by_id() {
    assert_eq!(
        output_template(JobId { value: SAMPLE }),
        "downloads/67e55044-10b1-426f-9247-bb680e5fe0c8.%(ext)s"
    );
}

#[test]
fn format_selector_parsing() {
    assert_eq!(DownloadFormat::parse("auto"), Some(DownloadFormat::Auto));
    assert_eq!(DownloadFormat::parse("mp4"), Some(DownloadFormat::Mp4));
    assert_eq!(DownloadFormat::parse("mp3"), Some(DownloadFormat::Mp3));
    assert_eq!(DownloadFormat::parse("xyz"), None);
    assert_eq!(DownloadFormat::parse("MP3"), None);
}

#[test]
fn mp3_requests_audio_extraction() {
    let sub = form(Some("https://example.com/v"), Some("mp3")).validate().unwrap();
    assert_eq!(sub.format, DownloadFormat::Mp3);
    let args = command_args("t", &sub.url, sub.format);
    assert_eq!(&args[8..], &["-x", "--audio-format", "mp3"]);
}

#[test]
fn unknown_format_is_rejected() {
    let r = form(Some("https://example.com/v"), Some("xyz")).validate();
    assert_eq!(r.unwrap_err(), SubmitError::InvalidFormat);
}

#[test]
fn missing_url_is_rejected() {
    let r = form(None, Some("mp3")).validate();
    assert_eq!(r.unwrap_err(), SubmitError::MissingUrl);
    assert_eq!(SubmitError::MissingUrl.message(), "URL tidak ditemukan.");
}

#[test]
fn malformed_url_is_rejected() {
    let r = form(Some("not a url"), None).validate();
    assert_eq!(r.unwrap_err(), SubmitError::InvalidUrl);
    assert_eq!(SubmitError::InvalidUrl.message(), "URL tidak valid.");
}

#[test]
fn format_defaults_to_auto() {
    let sub = form(Some("https://example.com/v"), None).validate().unwrap();
    assert_eq!(sub.format, DownloadFormat::Auto);
    assert_eq!(sub.url, "https://example.com/v");
}

#[test]
fn later_field_replaces_earlier() {
    let mut f = FormFields::new();
    f.record("format", "mp4".to_string());
    f.record("format", "mp3".to_string());
    f.record("other", "x".to_string());
    f.record("url", "https://a.example/".to_string());
    let sub = f.validate().unwrap();
    assert_eq!(sub.format, DownloadFormat::Mp3);
}

#[test]
fn auto_args() {
    let args = command_args("downloads/x.%(ext)s", "https://e.example/v", DownloadFormat::Auto);
    assert_eq!(
        args,
        vec![
            "-o",
            "downloads/x.%(ext)s",
            "https://e.example/v",
            "--progress-template",
            "download:%(progress._percent_str)s",
            "--user-agent",
            "Mozilla/5.0",
            "--newline",
        ]
    );
}

#[test]
fn mp4_args() {
    let args = command_args("t", "u", DownloadFormat::Mp4);
    assert_eq!(
        &args[8..],
        &[
            "-f",
            "bestvideo[ext=mp4]+bestaudio[ext=m4a]/best[ext=mp4]/best",
            "--merge-output-format",
            "mp4",
        ]
    );
}
