//! The upload protocol: one session per received file field.
//!
//! The caller owns the network and the disk. It opens a session, creates the
//! file at the session's path, hands every chunk to `receive` and does what
//! the verdict says: append the chunk to the file, or delete the file and stop.
//! When the field is exhausted, `finish` gives the reply.

use vstd::prelude::*;
use vstd::string::*;
use crate::content_type::{extension_for, file_name_of, stored_extension};
use crate::identifier::{generate, is_hyphenated_uuid};
use crate::reply::{BodyKind, Reply, ReplyView, plain, plain_reply};
use crate::retrieval::{Mode, retrieval_link, retrieval_url};
use crate::store::{FileStore, appended, created, removed, served, storage_path, storage_path_of};
use crate::text::{decimal, decimal_text, given_text, join};

verus! {

/// What the caller is to do with a chunk.
#[derive(Clone, Copy, Debug, PartialEq, Eq, Structural)]
pub enum Verdict {
    /// Append the whole chunk to the file.
    Append,
    /// The ceiling is exceeded: delete the file and read no further.
    Reject,
}

/// Why no reply could be made.
#[derive(Clone, Copy, Debug, PartialEq, Eq, Structural)]
pub enum UploadError {
    /// The link could not be written as JSON.
    Encoding,
}

/// The bookkeeping of one upload.
#[derive(Debug)]
pub struct UploadSession {
    file_name: String,
    limit: u64,
    received: u64,
    rejected: bool,
}

/// A session as a mathematical value.
pub struct SessionView {
    /// The name under which the file is stored.
    pub file_name: Seq<char>,
    /// The most bytes that the file may hold.
    pub limit: nat,
    /// The bytes accepted so far.
    pub received: nat,
    /// Whether the ceiling was exceeded.
    pub rejected: bool,
}

impl View for UploadSession {
    type V = SessionView;

    closed spec fn view(&self) -> SessionView {
        SessionView {
            file_name: self.file_name@,
            limit: self.limit as nat,
            received: self.received as nat,
            rejected: self.rejected,
        }
    }
}

/// A session that has received nothing yet.
pub open spec fn start(file_name: Seq<char>, limit: nat) -> SessionView {
    SessionView { file_name, limit, received: 0, rejected: false }
}

/// One chunk of `chunk_len` bytes arrives: the session after it, and the
/// verdict. A chunk is accepted if the running total with it stays within the
/// limit; the first chunk that does not fit ends the session for good.
pub open spec fn step(s: SessionView, chunk_len: nat) -> (SessionView, Verdict) {
    if s.rejected || s.received + chunk_len > s.limit {
        (SessionView { rejected: true, ..s }, Verdict::Reject)
    } else {
        (SessionView { received: s.received + chunk_len, ..s }, Verdict::Append)
    }
}

/// The text of the reply to an upload above `limit` bytes.
pub open spec fn rejection_body(limit: nat) -> Seq<char> {
    "File size exceeds "@ + decimal(limit) + " bytes"@
}

/// The reply to an upload above `limit` bytes.
pub open spec fn rejection(limit: nat) -> ReplyView {
    plain(crate::reply::STATUS_PAYLOAD_TOO_LARGE, rejection_body(limit))
}

/// The reply to a request that holds no file field.
pub open spec fn no_file() -> ReplyView {
    plain(crate::reply::STATUS_BAD_REQUEST, "No file uploaded"@)
}

/// The JSON document that reports a stored upload; `encoded_link` is the link
/// as a JSON string, quotation marks included. The status member is 200 in
/// every such document.
pub open spec fn stored_body(encoded_link: Seq<char>) -> Seq<char> {
    "{\"status\":200,\"data\":{\"link\":"@ + encoded_link + "}}"@
}

/// The reply to a stored upload.
pub open spec fn stored(encoded_link: Seq<char>) -> ReplyView {
    ReplyView {
        status: crate::reply::STATUS_OK,
        kind: BodyKind::Json,
        body: stored_body(encoded_link),
    }
}

/// The reply that ends a session: the rejection if the ceiling was exceeded,
/// else the document with the link at which the stored file is retrieved in
/// the given mode.
pub open spec fn closing_reply(s: SessionView, base_url: Seq<char>, mode: Mode) -> ReplyView {
    if s.rejected {
        rejection(s.limit)
    } else {
        stored(json_string_text(retrieval_link(mode, base_url, s.file_name)))
    }
}

/// Whether `s` is a session that has received nothing yet, for a file named
/// by some identifier in hyphenated form and the extension that goes with
/// `declared_subtype`.
pub open spec fn is_opened(s: SessionView, declared_subtype: Option<Seq<char>>, limit: nat) -> bool {
    exists|id: Seq<char>|
        #[trigger] is_hyphenated_uuid(id) && s == start(
            file_name_of(id, extension_for(declared_subtype)),
            limit,
        )
}

/// serde_json's error type.
#[verifier::external_type_specification]
#[verifier::external_body]
pub struct ExJsonError(serde_json::Error);

/// The JSON string that serde_json writes for a text: `serde_json::to_string`
/// applied to it.
pub uninterp spec fn json_string_text(text: Seq<char>) -> Seq<char>;

/// Calls serde_json's `to_string` on a text. A text is serialised by writing
/// its escaped characters into a byte vector, which cannot fail, so the
/// contract claims that the call succeeds, and names what it gives.
#[verifier::external_body]
fn encode_json_string(text: &str) -> (r: Result<String, serde_json::Error>)
    ensures
        r is Ok,
        r matches Ok(encoded) ==> encoded@ == json_string_text(text@),
{
    serde_json::to_string(text)
}

/// The reply to a request that holds no file field.
pub fn no_file_reply() -> (r: Reply)
    ensures
        r@ == no_file(),
{
    plain_reply(crate::reply::STATUS_BAD_REQUEST, "No file uploaded")
}

/// The reply to an upload above `limit` bytes.
pub fn rejection_reply(limit: u64) -> (r: Reply)
    ensures
        r@ == rejection(limit as nat),
{
    let mut body = join("File size exceeds ", decimal_text(limit).as_str());
    body.append(" bytes");
    plain_reply(crate::reply::STATUS_PAYLOAD_TOO_LARGE, body.as_str())
}

/// The reply to a stored upload, from the outcome of encoding its link: the
/// document around the encoded link, or the error where there is none.
pub fn stored_reply(encoded: Result<String, serde_json::Error>) -> (r: Result<Reply, UploadError>)
    ensures
        match encoded {
            Ok(link) => r is Ok && r.unwrap()@ == stored(link@),
            Err(_) => r == Err::<Reply, UploadError>(UploadError::Encoding),
        },
{
    match encoded {
        Ok(link) => {
            let mut body = join("{\"status\":200,\"data\":{\"link\":", link.as_str());
            body.append("}}");
            Ok(Reply { status: crate::reply::STATUS_OK, kind: BodyKind::Json, body })
        },
        Err(_) => Err(UploadError::Encoding),
    }
}

/// The handling of the chunks of one field, from a session and a store in
/// which the file exists: each accepted chunk is appended to the file; the
/// first chunk that does not fit has the file deleted, and what follows it is
/// not read.
pub open spec fn run(s: SessionView, store: FileStore, chunks: Seq<Seq<u8>>) -> (
    SessionView,
    FileStore,
)
    decreases chunks.len(),
{
    if chunks.len() == 0 {
        (s, store)
    } else {
        let (next, verdict) = step(s, chunks[0].len());
        match verdict {
            Verdict::Append => run(
                next,
                appended(store, s.file_name, chunks[0]),
                chunks.drop_first(),
            ),
            Verdict::Reject => (next, removed(store, s.file_name)),
        }
    }
}

/// The handling of a whole field: the file is created, then the chunks are
/// taken in as `run` says.
pub open spec fn handled(
    file_name: Seq<char>,
    limit: nat,
    store: FileStore,
    chunks: Seq<Seq<u8>>,
) -> (SessionView, FileStore) {
    run(start(file_name, limit), created(store, file_name), chunks)
}

proof fn lemma_run(s: SessionView, store: FileStore, chunks: Seq<Seq<u8>>)
    requires
        !s.rejected,
        s.received <= s.limit,
        store.dom().contains(s.file_name),
    ensures
        s.received + chunks.flatten().len() <= s.limit ==> run(s, store, chunks) == (
            SessionView { received: s.received + chunks.flatten().len(), ..s },
            store.insert(s.file_name, store[s.file_name] + chunks.flatten()),
        ),
        s.received + chunks.flatten().len() > s.limit ==> {
            &&& run(s, store, chunks).0.rejected
            &&& run(s, store, chunks).0.file_name == s.file_name
            &&& run(s, store, chunks).0.limit == s.limit
            &&& run(s, store, chunks).1 == store.remove(s.file_name)
        },
    decreases chunks.len(),
{
    if chunks.len() == 0 {
        assert(store[s.file_name] + chunks.flatten() =~= store[s.file_name]);
        assert(store.insert(s.file_name, store[s.file_name]) =~= store);
    } else {
        let head = chunks[0];
        let tail = chunks.drop_first();
        assert(chunks.flatten() == head + tail.flatten());
        let (next, verdict) = step(s, head.len());
        if verdict == Verdict::Append {
            let written = appended(store, s.file_name, head);
            lemma_run(next, written, tail);
            if s.received + chunks.flatten().len() <= s.limit {
                assert(written[s.file_name] + tail.flatten() =~= store[s.file_name]
                    + chunks.flatten());
                assert(written.insert(s.file_name, written[s.file_name] + tail.flatten())
                    =~= store.insert(s.file_name, store[s.file_name] + chunks.flatten()));
            } else {
                assert(written.remove(s.file_name) =~= store.remove(s.file_name));
            }
        }
    }
}

/// An upload of no more bytes than the limit is accepted whole, however it is
/// cut into chunks: the reply is the document with the file's link, and
/// afterwards the store holds under the file's name exactly the bytes that
/// were sent, in the order in which they came, a download of that name
/// delivers them, and no other file has changed.
pub proof fn lemma_upload_within_limit_is_stored(
    file_name: Seq<char>,
    limit: nat,
    store: FileStore,
    chunks: Seq<Seq<u8>>,
    base_url: Seq<char>,
    mode: Mode,
)
    requires
        chunks.flatten().len() <= limit,
    ensures
        closing_reply(handled(file_name, limit, store, chunks).0, base_url, mode) == stored(
            json_string_text(retrieval_link(mode, base_url, file_name)),
        ),
        handled(file_name, limit, store, chunks).0 == (SessionView {
            file_name,
            limit,
            received: chunks.flatten().len(),
            rejected: false,
        }),
        handled(file_name, limit, store, chunks).1 == store.insert(file_name, chunks.flatten()),
        served(handled(file_name, limit, store, chunks).1, file_name) == Some(chunks.flatten()),
{
    let fresh = created(store, file_name);
    lemma_run(start(file_name, limit), fresh, chunks);
    assert(fresh[file_name] + chunks.flatten() =~= chunks.flatten());
    assert(fresh.insert(file_name, fresh[file_name] + chunks.flatten()) =~= store.insert(
        file_name,
        chunks.flatten(),
    ));
}

/// An upload of more bytes than the limit is rejected, by whatever margin and
/// however it is cut into chunks: the reply is the rejection that names the
/// limit, afterwards no file is stored under the upload's name, and every
/// other file is as it was. If no file of that name was there before the
/// upload, the whole store is as it was.
pub proof fn lemma_upload_over_limit_is_rejected(
    file_name: Seq<char>,
    limit: nat,
    store: FileStore,
    chunks: Seq<Seq<u8>>,
    base_url: Seq<char>,
    mode: Mode,
)
    requires
        chunks.flatten().len() > limit,
    ensures
        closing_reply(handled(file_name, limit, store, chunks).0, base_url, mode) == rejection(
            limit,
        ),
        handled(file_name, limit, store, chunks).0.rejected,
        handled(file_name, limit, store, chunks).0.file_name == file_name,
        handled(file_name, limit, store, chunks).0.limit == limit,
        handled(file_name, limit, store, chunks).1 == store.remove(file_name),
        served(handled(file_name, limit, store, chunks).1, file_name) == None::<Seq<u8>>,
        !store.dom().contains(file_name) ==> handled(file_name, limit, store, chunks).1 == store,
{
    let fresh = created(store, file_name);
    lemma_run(start(file_name, limit), fresh, chunks);
    assert(fresh.remove(file_name) =~= store.remove(file_name));
    if !store.dom().contains(file_name) {
        assert(store.remove(file_name) =~= store);
    }
}

/// Only the bytes count, not the chunks in which they arrive: two ways of
/// cutting the same bytes end in the same session and the same store.
pub proof fn lemma_chunking_is_immaterial(
    file_name: Seq<char>,
    limit: nat,
    store: FileStore,
    first: Seq<Seq<u8>>,
    second: Seq<Seq<u8>>,
)
    requires
        first.flatten() == second.flatten(),
    ensures
        handled(file_name, limit, store, first).0.rejected == handled(
            file_name,
            limit,
            store,
            second,
        ).0.rejected,
        handled(file_name, limit, store, first).1 == handled(file_name, limit, store, second).1,
{
    let base_url = Seq::<char>::empty();
    if first.flatten().len() <= limit {
        lemma_upload_within_limit_is_stored(file_name, limit, store, first, base_url, Mode::Raw);
        lemma_upload_within_limit_is_stored(file_name, limit, store, second, base_url, Mode::Raw);
    } else {
        lemma_upload_over_limit_is_rejected(file_name, limit, store, first, base_url, Mode::Raw);
        lemma_upload_over_limit_is_rejected(file_name, limit, store, second, base_url, Mode::Raw);
    }
}

impl UploadSession {
    /// Starts the session of an upload that is stored under `id` with the
    /// extension that goes with `declared_subtype`, and may hold `limit` bytes.
    pub fn begin(id: &str, declared_subtype: Option<&str>, limit: u64) -> (s: Self)
        ensures
            s@ == start(
                file_name_of(id@, extension_for(given_text(declared_subtype))),
                limit as nat,
            ),
    {
        let ext = stored_extension(declared_subtype);
        let mut file_name = join(id, ".");
        file_name.append(ext.as_str());
        UploadSession { file_name, limit, received: 0, rejected: false }
    }

    /// Starts a session under a newly generated identifier.
    pub fn open(declared_subtype: Option<&str>, limit: u64) -> (s: Self)
        ensures
            is_opened(s@, given_text(declared_subtype), limit as nat),
    {
        let id = generate();
        let s = Self::begin(id.as_str(), declared_subtype, limit);
        assert(is_hyphenated_uuid(id@));
        s
    }

    /// Decides what a request leads to, from its first field alone: a session
    /// for that field, or the bad-request reply where the request holds no
    /// field. `first_field` is `None` for a request without fields, else the
    /// sub-type that the first field declares, if it declares one. Further
    /// fields play no part.
    pub fn for_first_field(first_field: Option<Option<&str>>, limit: u64) -> (r: Result<
        Self,
        Reply,
    >)
        ensures
            match r {
                Ok(s) => first_field is Some && is_opened(
                    s@,
                    given_text(first_field.unwrap()),
                    limit as nat,
                ),
                Err(reply) => first_field is None && reply@ == no_file(),
            },
    {
        match first_field {
            Some(declared_subtype) => Ok(Self::open(declared_subtype, limit)),
            None => Err(no_file_reply()),
        }
    }

    /// The name under which the file is stored.
    pub fn file_name(&self) -> (name: &str)
        ensures
            name@ == self@.file_name,
    {
        self.file_name.as_str()
    }

    /// The path at which the caller keeps the file.
    pub fn path(&self) -> (path: String)
        ensures
            path@ == storage_path_of(self@.file_name),
    {
        storage_path(self.file_name.as_str())
    }

    /// The most bytes that the file may hold.
    pub fn limit(&self) -> (n: u64)
        ensures
            n == self@.limit,
    {
        self.limit
    }

    /// The bytes accepted so far.
    pub fn received(&self) -> (n: u64)
        ensures
            n == self@.received,
    {
        self.received
    }

    /// Whether the ceiling was exceeded.
    pub fn is_rejected(&self) -> (b: bool)
        ensures
            b == self@.rejected,
    {
        self.rejected
    }

    /// Takes note of the next chunk and says what to do with it.
    pub fn receive(&mut self, chunk: &[u8]) -> (verdict: Verdict)
        ensures
            (final(self)@, verdict) == step(old(self)@, chunk@.len()),
    {
        let len = chunk.len() as u64;
        if self.rejected || self.received > self.limit || len > self.limit - self.received {
            self.rejected = true;
            Verdict::Reject
        } else {
            self.received = self.received + len;
            Verdict::Append
        }
    }

    /// The reply that ends the session once the field is exhausted: the
    /// rejection if the ceiling was exceeded, else the document with the link
    /// at which the stored file is retrieved in the given mode. The result is
    /// always `Ok`.
    pub fn finish(&self, base_url: &str, mode: Mode) -> (r: Result<Reply, UploadError>)
        ensures
            r is Ok,
            r.unwrap()@ == closing_reply(self@, base_url@, mode),
    {
        if self.rejected {
            Ok(rejection_reply(self.limit))
        } else {
            let link = retrieval_url(mode, base_url, self.file_name.as_str());
            stored_reply(encode_json_string(link.as_str()))
        }
    }
}

} // verus!
