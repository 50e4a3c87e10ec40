//! Job identity, submissions and the downloader's command line.
use vstd::prelude::*;
use vstd::arithmetic::power2::pow2;
use crate::text::{joined, same_text};

verus! {

/// Directory that holds every artifact.
pub const OUTPUT_DIR: &'static str = "downloads";
/// Directory, with its separator, that holds every artifact.
pub const OUTPUT_PREFIX: &'static str = "downloads/";
/// Tail of the downloader's output template: it puts the extension there.
pub const TEMPLATE_SUFFIX: &'static str = ".%(ext)s";
/// The external downloader.
pub const DOWNLOADER: &'static str = "yt-dlp";
/// Lower-case hexadecimal digits.
pub const HEX_DIGITS: &'static str = "0123456789abcdef";

/// Hexadecimal digit `k` of `v`, counted from the most significant (0 to 31).
pub open spec fn nibble(v: u128, k: int) -> int {
    ((v as nat / pow2((4 * (31 - k)) as nat)) % 16) as int
}

/// How many hyphens the hyphenated form has before position `p`.
pub open spec fn hyphens_before(p: int) -> int {
    if p < 8 {
        0
    } else if p < 13 {
        1
    } else if p < 18 {
        2
    } else if p < 23 {
        3
    } else {
        4
    }
}

/// The hyphenated lower-case form of a 128-bit identifier: its 32 hex
/// digits, most significant first, in groups of 8, 4, 4, 4 and 12.
pub open spec fn uuid_text(v: u128) -> Seq<char> {
    Seq::new(
        36,
        |p: int|
            if p == 8 || p == 13 || p == 18 || p == 23 {
                '-'
            } else {
                HEX_DIGITS@[nibble(v, p - hyphens_before(p))]
            },
    )
}

/// Relies on `uuid::Uuid::from_u128` (big-endian bytes) and uuid's `Display`,
/// which writes the lower-case hyphenated form.
#[verifier::external_body]
fn uuid_string(v: u128) -> (r: String)
    ensures
        r@ == uuid_text(v),
{
    uuid::Uuid::from_u128(v).to_string()
}

/// Relies on `uuid::Uuid::new_v4`: a random identifier; nothing is known of its value.
#[verifier::external_body]
fn random_uuid() -> u128 {
    uuid::Uuid::new_v4().as_u128()
}

/// Identifier of a job: a 128-bit value, shown in hyphenated form.
#[derive(Clone, Copy, Debug, PartialEq, Eq, Hash, Structural)]
pub struct JobId {
    pub value: u128,
}

impl JobId {
    /// A fresh random identifier.
    pub fn generate() -> (r: JobId) {
        JobId { value: random_uuid() }
    }

    /// The textual form, which names the job's files.
    pub fn text(&self) -> (r: String)
        ensures
            r@ == uuid_text(self.value),
    {
        uuid_string(self.value)
    }
}

/// The template the downloader names its output by.
pub open spec fn output_template_of(id: u128) -> Seq<char> {
    OUTPUT_PREFIX@ + uuid_text(id) + TEMPLATE_SUFFIX@
}

/// The output template of job `id`: `downloads/<id>.%(ext)s`.
pub fn output_template(id: JobId) -> (r: String)
    ensures
        r@ == output_template_of(id.value),
{
    let t = id.text();
    let mut r = joined(OUTPUT_PREFIX, t.as_str());
    r.append(TEMPLATE_SUFFIX);
    r
}

/// The container a submission asks for.
#[derive(Clone, Copy, Debug, PartialEq, Eq, Structural)]
pub enum DownloadFormat {
    /// The downloader decides.
    Auto,
    /// Merged into mp4.
    Mp4,
    /// Audio only, as mp3.
    Mp3,
}

/// The format a selector names, if it names one.
pub open spec fn format_of(s: Seq<char>) -> Option<DownloadFormat> {
    if s == "auto"@ {
        Some(DownloadFormat::Auto)
    } else if s == "mp4"@ {
        Some(DownloadFormat::Mp4)
    } else if s == "mp3"@ {
        Some(DownloadFormat::Mp3)
    } else {
        None
    }
}

impl DownloadFormat {
    /// The format that `s` names: one of `auto`, `mp4`, `mp3`.
    pub fn parse(s: &str) -> (r: Option<DownloadFormat>)
        ensures
            r == format_of(s@),
    {
        if same_text(s, "auto") {
            Some(DownloadFormat::Auto)
        } else if same_text(s, "mp4") {
            Some(DownloadFormat::Mp4)
        } else if same_text(s, "mp3") {
            Some(DownloadFormat::Mp3)
        } else {
            None
        }
    }
}

/// Whether `url::Url::parse` accepts a text.
pub uninterp spec fn url_parses(s: Seq<char>) -> bool;

/// Relies on `url::Url::parse`: whether the text is a well-formed absolute URL.
#[verifier::external_body]
fn parses_as_url(s: &str) -> (r: bool)
    ensures
        r == url_parses(s@),
{
    url::Url::parse(s).is_ok()
}

/// The fields of a submission form that the service reads.
pub struct FormFields {
    pub url: Option<String>,
    pub format: Option<String>,
}

/// Model of [`FormFields`].
pub struct FormView {
    pub url: Option<Seq<char>>,
    pub format: Option<Seq<char>>,
}

pub open spec fn opt_view(o: Option<String>) -> Option<Seq<char>> {
    match o {
        Some(s) => Some(s@),
        None => None,
    }
}

impl View for FormFields {
    type V = FormView;

    open spec fn view(&self) -> FormView {
        FormView { url: opt_view(self.url), format: opt_view(self.format) }
    }
}

/// The form after a field `name` with `value` was read: a later field of the
/// same name replaces an earlier one; other names are ignored.
pub open spec fn record_field(f: FormView, name: Seq<char>, value: Seq<char>) -> FormView {
    if name == "url"@ {
        FormView { url: Some(value), ..f }
    } else if name == "format"@ {
        FormView { format: Some(value), ..f }
    } else {
        f
    }
}

/// A submission that passed validation.
#[derive(Debug)]
pub struct Submission {
    pub url: String,
    pub format: DownloadFormat,
}

/// Why a submission was refused; no job is created for it.
#[derive(Clone, Copy, Debug, PartialEq, Eq, Structural)]
pub enum SubmitError {
    /// The form has no `url` field.
    MissingUrl,
    /// The `url` field is not a well-formed URL.
    InvalidUrl,
    /// The `format` field is not one of `auto`, `mp4`, `mp3`.
    InvalidFormat,
}

impl SubmitError {
    /// The message shown to the submitter.
    pub fn message(&self) -> (r: &'static str)
        ensures
            r@ == match self {
                SubmitError::MissingUrl => "URL tidak ditemukan."@,
                SubmitError::InvalidUrl => "URL tidak valid."@,
                SubmitError::InvalidFormat => "Format tidak valid."@,
            },
    {
        match self {
            SubmitError::MissingUrl => "URL tidak ditemukan.",
            SubmitError::InvalidUrl => "URL tidak valid.",
            SubmitError::InvalidFormat => "Format tidak valid.",
        }
    }
}

/// The selector a form asks for: `auto` when it names none.
pub open spec fn requested_format(f: FormView) -> Seq<char> {
    match f.format {
        Some(s) => s,
        None => "auto"@,
    }
}

impl FormFields {
    /// A form with no field read yet.
    pub fn new() -> (r: FormFields)
        ensures
            r@ == (FormView { url: None, format: None }),
    {
        FormFields { url: None, format: None }
    }

    /// Whether a field named `name` is read at all: only `url` and `format` are.
    pub fn reads(name: &str) -> (r: bool)
        ensures
            r == (name@ == "url"@ || name@ == "format"@),
    {
        same_text(name, "url") || same_text(name, "format")
    }

    /// Records one field of the form.
    pub fn record(&mut self, name: &str, value: String)
        ensures
            final(self)@ == record_field(old(self)@, name@, value@),
    {
        if same_text(name, "url") {
            self.url = Some(value);
        } else if same_text(name, "format") {
            self.format = Some(value);
        }
    }

    /// Validates the form: a URL must be present and well-formed, and the
    /// format, `auto` by default, one of the fixed set.
    pub fn validate(self) -> (r: Result<Submission, SubmitError>)
        ensures
            match r {
                Err(SubmitError::MissingUrl) => self@.url is None,
                Err(SubmitError::InvalidUrl) => self@.url matches Some(u) && !url_parses(u),
                Err(SubmitError::InvalidFormat) => self@.url matches Some(u) && url_parses(u)
                    && format_of(requested_format(self@)) is None,
                Ok(s) => self@.url matches Some(u) && url_parses(u) && s.url@ == u && format_of(
                    requested_format(self@),
                ) == Some(s.format),
            },
    {
        let url = match self.url {
            Some(u) => u,
            None => return Err(SubmitError::MissingUrl),
        };
        if !parses_as_url(url.as_str()) {
            return Err(SubmitError::InvalidUrl);
        }
        let format = match &self.format {
            Some(f) => DownloadFormat::parse(f.as_str()),
            None => DownloadFormat::parse("auto"),
        };
        match format {
            Some(format) => Ok(Submission { url, format }),
            None => Err(SubmitError::InvalidFormat),
        }
    }
}

/// The views of a sequence of strings.
pub open spec fn texts(v: Seq<String>) -> Seq<Seq<char>> {
    v.map_values(|s: String| s@)
}

/// Arguments that every run gets: the output template, the URL, a progress
/// template that prefixes each progress line with `download:`, a browser user
/// agent, and one line per progress update.
pub open spec fn base_args(template: Seq<char>, url: Seq<char>) -> Seq<Seq<char>> {
    seq![
        "-o"@,
        template,
        url,
        "--progress-template"@,
        "download:%(progress._percent_str)s"@,
        "--user-agent"@,
        "Mozilla/5.0"@,
        "--newline"@,
    ]
}

/// Arguments that select the format.
pub open spec fn format_args(f: DownloadFormat) -> Seq<Seq<char>> {
    match f {
        DownloadFormat::Auto => seq![],
        DownloadFormat::Mp4 => seq![
            "-f"@,
            "bestvideo[ext=mp4]+bestaudio[ext=m4a]/best[ext=mp4]/best"@,
            "--merge-output-format"@,
            "mp4"@,
        ],
        DownloadFormat::Mp3 => seq!["-x"@, "--audio-format"@, "mp3"@],
    }
}

/// The downloader's arguments.
pub open spec fn command_args_of(template: Seq<char>, url: Seq<char>, f: DownloadFormat) -> Seq<
    Seq<char>,
> {
    base_args(template, url) + format_args(f)
}

fn push_arg(v: &mut Vec<String>, a: &str)
    ensures
        texts(final(v)@) == texts(old(v)@).push(a@),
{
    v.push(a.to_owned());
    assert(texts(final(v)@) =~= texts(old(v)@).push(a@));
}

/// The arguments the downloader runs with, for a job writing to `template`.
pub fn command_args(template: &str, url: &str, format: DownloadFormat) -> (r: Vec<String>)
    ensures
        texts(r@) == command_args_of(template@, url@, format),
{
    let mut v: Vec<String> = Vec::new();
    assert(texts(v@) =~= seq![]);
    push_arg(&mut v, "-o");
    push_arg(&mut v, template);
    push_arg(&mut v, url);
    push_arg(&mut v, "--progress-template");
    push_arg(&mut v, "download:%(progress._percent_str)s");
    push_arg(&mut v, "--user-agent");
    push_arg(&mut v, "Mozilla/5.0");
    push_arg(&mut v, "--newline");
    assert(texts(v@) =~= base_args(template@, url@));
    match format {
        DownloadFormat::Auto => {},
        DownloadFormat::Mp4 => {
            push_arg(&mut v, "-f");
            push_arg(&mut v, "bestvideo[ext=mp4]+bestaudio[ext=m4a]/best[ext=mp4]/best");
            push_arg(&mut v, "--merge-output-format");
            push_arg(&mut v, "mp4");
        },
        DownloadFormat::Mp3 => {
            push_arg(&mut v, "-x");
            push_arg(&mut v, "--audio-format");
            push_arg(&mut v, "mp3");
        },
    }
    assert(texts(v@) =~= command_args_of(template@, url@, format));
    v
}

} // verus!
