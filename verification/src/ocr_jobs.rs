//! Processing an uploaded file with OCR: who may process which file, how
//! the file's type is told from its name, and what status a job ends in.
use vstd::prelude::*;
use crate::ocr::{GPayExtraction, OcrResult};

verus! {

/// A user may process only the files stored under their own id: keys that
/// start with `<user id>/`.
pub open spec fn may_access_key(user_id: Seq<char>, key: Seq<char>) -> bool {
    (user_id + "/"@).is_prefix_of(key)
}

/// Checks that `key` lies under `user_id`'s folder.
pub fn authorize_key(user_id: &str, key: &str) -> (r: bool)
    ensures
        r == may_access_key(user_id@, key@),
{
    let mut prefix = crate::text::owned(user_id);
    prefix.append("/");
    crate::text::starts_with(key, prefix.as_str())
}

/// A stored file belongs to one user only: of two different users whose ids
/// hold no `/`, at most one may process any given key.
pub proof fn law_keys_have_one_owner(a: Seq<char>, b: Seq<char>, key: Seq<char>)
    requires
        a != b,
        !a.contains('/'),
        !b.contains('/'),
    ensures
        !(may_access_key(a, key) && may_access_key(b, key)),
{
    if may_access_key(a, key) && may_access_key(b, key) {
        let pa = a + "/"@;
        let pb = b + "/"@;
        reveal_strlit("/");
        assert(pa.len() == a.len() + 1);
        assert(pb.len() == b.len() + 1);
        assert forall|i: int| 0 <= i < pa.len() implies key[i] == pa[i] by {}
        assert forall|i: int| 0 <= i < pb.len() implies key[i] == pb[i] by {}
        if a.len() == b.len() {
            assert forall|i: int| 0 <= i < a.len() implies a[i] == b[i] by {
                assert(pa[i] == a[i]);
                assert(pb[i] == b[i]);
            }
            assert(a =~= b);
        } else if a.len() < b.len() {
            assert(pa[a.len() as int] == '/');
            assert(pb[a.len() as int] == b[a.len() as int]);
            assert(b[a.len() as int] == '/');
        } else {
            assert(pb[b.len() as int] == '/');
            assert(pa[b.len() as int] == a[b.len() as int]);
            assert(a[b.len() as int] == '/');
        }
    }
}

/// The message given to a user who asks for a file that is not theirs.
pub fn forbidden_file_message() -> (s: &'static str)
    ensures
        s@ == "You do not have permission to access this file"@,
{
    "You do not have permission to access this file"
}

/// Index just after the last `/` of `s`, or 0 if there is none.
pub open spec fn after_last_slash(s: Seq<char>) -> int
    decreases s.len(),
{
    if s.len() == 0 {
        0
    } else if s.last() == '/' {
        s.len() as int
    } else {
        after_last_slash(s.drop_last())
    }
}

proof fn lemma_after_last_slash_bounds(s: Seq<char>)
    ensures
        0 <= after_last_slash(s) <= s.len(),
    decreases s.len(),
{
    if s.len() > 0 {
        lemma_after_last_slash_bounds(s.drop_last());
    }
}

/// The file name of a storage key: what follows its last `/` (the whole key
/// if it has none), as the last piece of `key.split("/")`.
pub open spec fn file_name_of(key: Seq<char>) -> Seq<char> {
    key.subrange(after_last_slash(key), key.len() as int)
}

/// The file name of a storage key.
pub fn file_name(key: &str) -> (name: String)
    ensures
        name@ == file_name_of(key@),
{
    let cs = crate::text::chars_of(key);
    let mut i: usize = cs.len();
    assert(cs@.take(i as int) =~= cs@);
    while i > 0 && cs[i - 1] != '/'
        invariant
            i <= cs.len(),
            cs@ == key@,
            after_last_slash(key@) == after_last_slash(cs@.take(i as int)),
        decreases i,
    {
        proof {
            assert(cs@.take(i as int).drop_last() =~= cs@.take(i - 1));
        }
        i = i - 1;
    }
    proof {
        if i > 0 {
            assert(cs@.take(i as int).last() == '/');
        } else {
            assert(cs@.take(0) =~= Seq::<char>::empty());
        }
        lemma_after_last_slash_bounds(key@);
    }
    crate::text::string_of_range(&cs, i, cs.len())
}

/// The media type the API assumes for a file name: PDF, CSV, WebP, and PNG
/// for anything else (screenshots).
pub open spec fn api_mime_type(name: Seq<char>) -> Seq<char> {
    if ".pdf"@.is_suffix_of(name) {
        "application/pdf"@
    } else if ".csv"@.is_suffix_of(name) {
        "text/csv"@
    } else if ".webp"@.is_suffix_of(name) {
        "image/webp"@
    } else {
        "image/png"@
    }
}

/// The media type the API assumes for a file name.
pub fn mime_type_for(name: &str) -> (m: &'static str)
    ensures
        m@ == api_mime_type(name@),
{
    if crate::text::ends_with(name, ".pdf") {
        "application/pdf"
    } else if crate::text::ends_with(name, ".csv") {
        "text/csv"
    } else if crate::text::ends_with(name, ".webp") {
        "image/webp"
    } else {
        "image/png"
    }
}

/// The media type the single-server variant assumes: PDF, CSV, and PNG for
/// anything else.
pub open spec fn server_mime_type(name: Seq<char>) -> Seq<char> {
    if ".pdf"@.is_suffix_of(name) {
        "application/pdf"@
    } else if ".csv"@.is_suffix_of(name) {
        "text/csv"@
    } else {
        "image/png"@
    }
}

/// The media type the single-server variant assumes for a file name.
pub fn server_mime_type_for(name: &str) -> (m: &'static str)
    ensures
        m@ == server_mime_type(name@),
{
    if crate::text::ends_with(name, ".pdf") {
        "application/pdf"
    } else if crate::text::ends_with(name, ".csv") {
        "text/csv"
    } else {
        "image/png"
    }
}

/// The single-server variant reads PNG screenshots as Google Pay documents
/// and everything else as generic ones.
pub fn doc_type_for_mime(mime: &str) -> (d: &'static str)
    ensures
        d@ == if mime@ == "image/png"@ { "GPAY"@ } else { "GENERIC"@ },
{
    if crate::text::same_text(mime, "image/png") {
        "GPAY"
    } else {
        "GENERIC"
    }
}

/// Attaches the wallet (and category, if given) chosen for automatic
/// confirmation to a Google Pay reading.
pub fn attach_to_gpay(gpay: &mut GPayExtraction, wallet_id: String, category_id: Option<String>)
    ensures
        final(gpay).wallet_id == Some(wallet_id),
        final(gpay).category_id == match category_id { Some(c) => Some(c), None => old(gpay).category_id },
        final(gpay).amount == old(gpay).amount,
        final(gpay).direction == old(gpay).direction,
        final(gpay).counterparty_name == old(gpay).counterparty_name,
{
    gpay.wallet_id = Some(wallet_id);
    if let Some(c) = category_id {
        gpay.category_id = Some(c);
    }
}

/// Attaches the wallet (and category, if given) chosen for automatic
/// confirmation to a generic reading.
pub fn attach_to_receipt(receipt: &mut OcrResult, wallet_id: String, category_id: Option<String>)
    ensures
        final(receipt).wallet_id == Some(wallet_id),
        final(receipt).category_id == match category_id { Some(c) => Some(c), None => old(receipt).category_id },
        final(receipt).amount == old(receipt).amount,
        final(receipt).vendor == old(receipt).vendor,
{
    receipt.wallet_id = Some(wallet_id);
    if let Some(c) = category_id {
        receipt.category_id = Some(c);
    }
}

/// How an OCR job ends.
pub struct JobOutcome {
    pub status: String,
    pub transaction_id: Option<String>,
}

/// The end of a job whose file was read. Without automatic confirmation it
/// waits for review; with it, it is completed with the transaction created,
/// or waits for review if creating the transaction failed (`None`).
pub fn job_outcome(auto_confirm: bool, created: Option<String>) -> (o: JobOutcome)
    ensures
        !auto_confirm ==> o.status@ == "PENDING_REVIEW"@ && o.transaction_id is None,
        auto_confirm ==> match created {
            Some(t) => o.status@ == "COMPLETED"@ && o.transaction_id == Some(t),
            None => o.status@ == "PENDING_REVIEW"@ && o.transaction_id is None,
        },
{
    if !auto_confirm {
        return JobOutcome { status: crate::text::owned("PENDING_REVIEW"), transaction_id: None };
    }
    match created {
        Some(t) => JobOutcome { status: crate::text::owned("COMPLETED"), transaction_id: Some(t) },
        None => JobOutcome { status: crate::text::owned("PENDING_REVIEW"), transaction_id: None },
    }
}

/// The status of a job whose file could not be read.
pub fn failed_status() -> (s: &'static str)
    ensures
        s@ == "FAILED"@,
{
    "FAILED"
}

/// The status a job shows while it is worked on.
pub fn processing_status() -> (s: &'static str)
    ensures
        s@ == "PROCESSING"@,
{
    "PROCESSING"
}

/// The answer to a request to process a file: a job that is already
/// completed (its file was seen before) is answered at once with 200 and its
/// status; any other is queued and answered with 202 and `QUEUED`.
pub fn job_accepted_response(job_id: String, job_status: String) -> (r: (u16, crate::api::OcrJobResponse))
    ensures
        job_status@ == "COMPLETED"@ ==> r.0 == 200 && r.1.job_id == job_id && r.1.status == job_status,
        job_status@ != "COMPLETED"@ ==> r.0 == 202 && r.1.job_id == job_id && r.1.status@ == "QUEUED"@,
{
    if crate::text::same_text(job_status.as_str(), "COMPLETED") {
        (200, crate::api::OcrJobResponse { job_id, status: job_status })
    } else {
        (202, crate::api::OcrJobResponse { job_id, status: crate::text::owned("QUEUED") })
    }
}

/// A progress update is sent only to the user who owns the job.
pub fn update_is_for(update_user_id: &str, user_id: &str) -> (r: bool)
    ensures
        r == (update_user_id@ == user_id@),
{
    crate::text::same_text(update_user_id, user_id)
}

/// The message given when the OCR service reports too many requests.
pub open spec fn quota_message() -> Seq<char> {
    "Gemini API quota exceeded. Please try again later."@
}

/// The error a failed reading of a file is answered with: where the reading
/// service answered with HTTP status 429 the quota message, else the failure's
/// own description; both as internal errors.
pub fn ocr_failure_error(http_status: Option<u16>, description: String) -> (e: crate::api_error::ApiError)
    ensures
        http_status == Some(429u16) ==> (e matches crate::api_error::ApiError::Internal(m) && m@ == quota_message()),
        http_status != Some(429u16) ==> e == crate::api_error::ApiError::Internal(description),
{
    match http_status {
        Some(429) => crate::api_error::ApiError::Internal(crate::text::owned("Gemini API quota exceeded. Please try again later.")),
        _ => crate::api_error::ApiError::Internal(description),
    }
}

/// The text of the recognised lines: each line followed by a line break.
pub open spec fn lines_text(lines: Seq<Seq<char>>) -> Seq<char>
    decreases lines.len(),
{
    if lines.len() == 0 {
        Seq::empty()
    } else {
        lines_text(lines.drop_last()) + lines.last() + seq!['\n']
    }
}

/// Joins the recognised lines into one text, each followed by a line break.
pub fn join_lines(lines: &Vec<String>) -> (text: String)
    ensures
        text@ == lines_text(lines@.map_values(|l: String| l@)),
{
    let ghost views = lines@.map_values(|l: String| l@);
    let mut text = String::new();
    let mut i: usize = 0;
    while i < lines.len()
        invariant
            i <= lines.len(),
            views == lines@.map_values(|l: String| l@),
            text@ == lines_text(views.take(i as int)),
        decreases lines.len() - i,
    {
        assert(views.take(i + 1).drop_last() =~= views.take(i as int));
        assert(views[i as int] == lines@[i as int]@);
        text.append(lines[i].as_str());
        text.append("\n");
        proof {
            reveal_strlit("\n");
        }
        assert(text@ =~= lines_text(views.take(i as int)) + views[i as int] + seq!['\n']);
        i = i + 1;
    }
    assert(views.take(lines.len() as int) =~= views);
    text
}

/// What the stream of job progress receives next.
pub enum StreamEvent {
    /// A progress update of a job of the given user.
    Update(String),
    /// Updates were missed because the stream fell behind.
    Lagged,
    /// The sender is gone.
    Closed,
}

/// What the stream does with it.
#[derive(PartialEq, Eq, Debug, Structural)]
pub enum StreamAction {
    Send,
    Skip,
    Stop,
}

/// The stream of `user_id` sends that user's updates, skips other users'
/// updates and missed ones, and ends when the sender is gone.
pub fn stream_step(event: &StreamEvent, user_id: &str) -> (a: StreamAction)
    ensures
        match event {
            StreamEvent::Update(u) => a == (if u@ == user_id@ { StreamAction::Send } else { StreamAction::Skip }),
            StreamEvent::Lagged => a == StreamAction::Skip,
            StreamEvent::Closed => a == StreamAction::Stop,
        },
{
    match event {
        StreamEvent::Update(u) => {
            if update_is_for(u.as_str(), user_id) {
                StreamAction::Send
            } else {
                StreamAction::Skip
            }
        },
        StreamEvent::Lagged => StreamAction::Skip,
        StreamEvent::Closed => StreamAction::Stop,
    }
}

} // verus!
