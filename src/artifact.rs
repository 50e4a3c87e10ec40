//! Artifacts on disk: finding the one a job produced, resolving the one a
//! client asks for, and the headers it is served with.
use vstd::prelude::*;
use crate::job::{JobId, OUTPUT_PREFIX, texts, uuid_text};
use crate::text::{
    contains_str, ends_with_str, has_prefix, has_substring, has_suffix, joined, same_text,
    starts_with_str,
};

verus! {

/// Extensions of the files a job may produce.
pub const MP4_EXT: &'static str = ".mp4";
pub const MP3_EXT: &'static str = ".mp3";
pub const WEBM_EXT: &'static str = ".webm";

/// Seconds a delivered file stays on disk after its delivery began.
pub const DELIVERY_GRACE_SECS: u64 = 600;

/// `name` is a file that job `id` produced: it begins with the job's
/// identifier and carries one of the accepted extensions.
pub open spec fn is_artifact_of(name: Seq<char>, id: u128) -> bool {
    &&& has_prefix(name, uuid_text(id))
    &&& (has_suffix(name, MP4_EXT@) || has_suffix(name, MP3_EXT@) || has_suffix(name, WEBM_EXT@))
}

/// `names[i]` is the first artifact of job `id` in `names`.
pub open spec fn first_artifact_at(names: Seq<Seq<char>>, id: u128, i: int) -> bool {
    &&& 0 <= i < names.len()
    &&& is_artifact_of(names[i], id)
    &&& forall|j: int| 0 <= j < i ==> !is_artifact_of(#[trigger] names[j], id)
}

/// Whether `name` is an artifact of job `id`.
pub fn is_artifact(name: &str, id: JobId) -> (r: bool)
    ensures
        r == is_artifact_of(name@, id.value),
{
    let prefix = id.text();
    starts_with_str(name, prefix.as_str()) && (ends_with_str(name, MP4_EXT) || ends_with_str(
        name,
        MP3_EXT,
    ) || ends_with_str(name, WEBM_EXT))
}

/// The first of `names` (directory entries, in the order listed) that job
/// `id` produced.
pub fn find_artifact(names: &Vec<String>, id: JobId) -> (r: Option<String>)
    ensures
        match r {
            Some(f) => exists|i: int| first_artifact_at(texts(names@), id.value, i) && f@ == names@[i]@,
            None => forall|i: int| 0 <= i < names@.len() ==> !is_artifact_of(#[trigger] names@[i]@, id.value),
        },
{
    let mut i: usize = 0;
    while i < names.len()
        invariant
            i <= names@.len(),
            forall|j: int| 0 <= j < i ==> !is_artifact_of(#[trigger] names@[j]@, id.value),
        decreases names@.len() - i,
    {
        if is_artifact(names[i].as_str(), id) {
            let f = names[i].clone();
            assert forall|j: int| 0 <= j < i implies !is_artifact_of(#[trigger] texts(names@)[j], id.value) by {
                assert(texts(names@)[j] == names@[j]@);
            }
            assert(first_artifact_at(texts(names@), id.value, i as int));
            return Some(f);
        }
        i += 1;
    }
    None
}

/// A file name that stays inside the output directory: not empty, no path
/// separator, not a reference to a directory.
pub open spec fn is_plain_name(name: Seq<char>) -> bool {
    &&& name.len() > 0
    &&& !has_substring(name, "/"@)
    &&& !has_substring(name, "\\"@)
    &&& name != "."@
    &&& name != ".."@
}

/// The path of the artifact a client asks for by `name`, or `None` when the
/// name would leave the output directory.
pub fn artifact_path(name: &str) -> (r: Option<String>)
    ensures
        match r {
            Some(p) => is_plain_name(name@) && p@ == OUTPUT_PREFIX@ + name@,
            None => !is_plain_name(name@),
        },
{
    if name.is_empty() || contains_str(name, "/") || contains_str(name, "\\") || same_text(name, ".")
        || same_text(name, "..") {
        None
    } else {
        Some(joined(OUTPUT_PREFIX, name))
    }
}

/// The disposition hint that names the file for download.
pub open spec fn disposition_of(name: Seq<char>) -> Seq<char> {
    "attachment; filename=\""@ + name + "\""@
}

/// The `Content-Disposition` value for serving `name`.
pub fn content_disposition(name: &str) -> (r: String)
    ensures
        r@ == disposition_of(name@),
{
    let mut r = joined("attachment; filename=\"", name);
    r.append("\"");
    r
}

/// The MIME type that `mime_guess` gives a file name.
pub uninterp spec fn mime_type_of(name: Seq<char>) -> Seq<char>;

/// Relies on `mime_guess::from_path(..).first_or_octet_stream()`: the first
/// MIME type known for the name's extension, else `application/octet-stream`;
/// it depends on the name alone.
#[verifier::external_body]
fn guess_mime(name: &str) -> (r: String)
    ensures
        r@ == mime_type_of(name@),
{
    mime_guess::from_path(name).first_or_octet_stream().to_string()
}

/// The `Content-Type` value for serving `name`, derived from its extension.
pub fn content_type(name: &str) -> (r: String)
    ensures
        r@ == mime_type_of(name@),
{
    guess_mime(name)
}

} // verus!
