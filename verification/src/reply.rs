//! What a handler hands back to the HTTP layer: a status, the kind of body and
//! the body's text.

use vstd::prelude::*;

verus! {

/// How the body of a reply is to be labelled.
#[derive(Clone, Copy, Debug, PartialEq, Eq, Structural)]
pub enum BodyKind {
    /// Plain text.
    PlainText,
    /// A JSON document.
    Json,
    /// An HTML document.
    Html,
}

/// A complete textual reply.
#[derive(Clone, Debug, PartialEq, Eq)]
pub struct Reply {
    /// The HTTP status code.
    pub status: u16,
    /// The kind of body.
    pub kind: BodyKind,
    /// The body.
    pub body: String,
}

/// A reply as a mathematical value.
pub struct ReplyView {
    pub status: u16,
    pub kind: BodyKind,
    pub body: Seq<char>,
}

impl View for Reply {
    type V = ReplyView;

    open spec fn view(&self) -> ReplyView {
        ReplyView { status: self.status, kind: self.kind, body: self.body@ }
    }
}

/// The status of a successful request.
pub const STATUS_OK: u16 = 200;

/// The status of a request without a file field.
pub const STATUS_BAD_REQUEST: u16 = 400;

/// The status of a request for a file that is not there.
pub const STATUS_NOT_FOUND: u16 = 404;

/// The status of an upload above the size ceiling.
pub const STATUS_PAYLOAD_TOO_LARGE: u16 = 413;

/// A plain-text reply with the given status and body.
pub open spec fn plain(status: u16, body: Seq<char>) -> ReplyView {
    ReplyView { status, kind: BodyKind::PlainText, body }
}

/// Builds a plain-text reply.
pub fn plain_reply(status: u16, body: &str) -> (r: Reply)
    ensures
        r@ == plain(status, body@),
{
    Reply { status, kind: BodyKind::PlainText, body: body.to_owned() }
}

} // verus!
