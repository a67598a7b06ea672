//! Uploads: which part of a multipart upload is the file, under what name and
//! type it is stored, and the public address of a stored file.
use vstd::prelude::*;

verus! {

/// The part of a multipart upload that holds the file.
pub open spec fn file_field_name() -> Seq<char> {
    "file"@
}

/// What is known of a multipart part before its bytes are read.
pub struct UploadField {
    pub name: Option<String>,
    pub file_name: Option<String>,
    pub content_type: Option<String>,
}

/// The file name and content type under which a file part is stored: those
/// given, else `unnamed` and `application/octet-stream`.
pub open spec fn stored_as(f: UploadField) -> (Seq<char>, Seq<char>) {
    (
        match f.file_name { Some(n) => n@, None => "unnamed"@ },
        match f.content_type { Some(t) => t@, None => "application/octet-stream"@ },
    )
}

/// The part is the file: its name is `file` (a part without a name is not).
pub open spec fn is_file_field(f: UploadField) -> bool {
    f.name matches Some(n) && n@ == file_field_name()
}

/// For one part of the upload: `Some` with the file name and content type to
/// store it under where it is the file (its bytes are then read and the
/// parts after it are not looked at), `None` where it is skipped.
pub fn take_upload_field(f: UploadField) -> (r: Option<(String, String)>)
    ensures
        r is Some <==> is_file_field(f),
        r matches Some(p) ==> p.0@ == stored_as(f).0 && p.1@ == stored_as(f).1,
{
    let is_file = match &f.name {
        Some(n) => crate::text::same_text(n.as_str(), "file"),
        None => false,
    };
    if !is_file {
        return None;
    }
    let file_name = match f.file_name {
        Some(n) => n,
        None => crate::text::owned("unnamed"),
    };
    let content_type = match f.content_type {
        Some(t) => t,
        None => crate::text::owned("application/octet-stream"),
    };
    Some((file_name, content_type))
}

/// The bucket uploads go to when none is configured.
pub open spec fn default_bucket() -> Seq<char> {
    "expent-uploads"@
}

/// The public address of the stored object `key` in `bucket`.
pub open spec fn public_url_spec(bucket: Seq<char>, key: Seq<char>) -> Seq<char> {
    "https://"@ + bucket + ".r2.cloudflarestorage.com/"@ + key
}

/// The public address of the stored object `key`, in the configured bucket
/// or else the default one.
pub fn public_url(bucket: Option<String>, key: &str) -> (url: String)
    ensures
        url@ == public_url_spec(
            match bucket { Some(b) => b@, None => default_bucket() },
            key@,
        ),
{
    let b = match bucket {
        Some(b) => b,
        None => crate::text::owned("expent-uploads"),
    };
    let url = crate::text::owned("https://").concat(b.as_str()).concat(".r2.cloudflarestorage.com/").concat(key);
    url
}

} // verus!
