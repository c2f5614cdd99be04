//! Content types of stored files.
//!
//! Two policies are offered. Under the declared policy the sub-type that the
//! uploading client stated becomes the file's extension, and a fixed table
//! turns the extension back into a content type. Under the sniffed policy a
//! general table of known extensions decides at retrieval time.

use vstd::prelude::*;
use vstd::string::*;
use crate::text::{given_text, same_text};

verus! {

/// The extension of a file whose upload stated no content type.
pub open spec fn default_extension() -> Seq<char> {
    "bin"@
}

/// The content type of everything that the fixed table does not know.
pub open spec fn octet_stream() -> Seq<char> {
    "application/octet-stream"@
}

/// The extension under which an upload is stored: the declared sub-type, or
/// `bin` where none was declared.
pub open spec fn extension_for(declared_subtype: Option<Seq<char>>) -> Seq<char> {
    match declared_subtype {
        Some(subtype) => subtype,
        None => default_extension(),
    }
}

/// Chooses the extension for an upload from the sub-type that the client
/// declared, if it declared one.
pub fn stored_extension(declared_subtype: Option<&str>) -> (ext: String)
    ensures
        ext@ == extension_for(given_text(declared_subtype)),
{
    match declared_subtype {
        Some(subtype) => subtype.to_owned(),
        None => "bin".to_owned(),
    }
}

/// The position of the last dot in `s`, or -1 where `s` holds none.
pub open spec fn last_dot(s: Seq<char>) -> int
    decreases s.len(),
{
    if s.len() == 0 {
        -1
    } else if s.last() == '.' {
        s.len() - 1
    } else {
        last_dot(s.drop_last())
    }
}

/// What follows the last dot of a file name; `None` for a name without a dot.
pub open spec fn extension_of(name: Seq<char>) -> Option<Seq<char>> {
    let k = last_dot(name);
    if k < 0 {
        None
    } else {
        Some(name.subrange(k + 1, name.len() as int))
    }
}

/// `last_dot` finds a dot that no other dot follows.
pub proof fn lemma_last_dot_at(s: Seq<char>, k: int)
    requires
        0 <= k < s.len(),
        s[k] == '.',
        forall|j: int| k < j < s.len() ==> s[j] != '.',
    ensures
        last_dot(s) == k,
    decreases s.len(),
{
    if s.last() != '.' {
        lemma_last_dot_at(s.drop_last(), k);
    }
}

/// `last_dot` is -1 on a text without dots.
pub proof fn lemma_last_dot_none(s: Seq<char>)
    requires
        forall|j: int| 0 <= j < s.len() ==> s[j] != '.',
    ensures
        last_dot(s) == -1,
    decreases s.len(),
{
    if s.len() > 0 {
        lemma_last_dot_none(s.drop_last());
    }
}

/// Splits the extension off a file name.
pub fn file_extension(name: &str) -> (ext: Option<String>)
    ensures
        match ext {
            Some(e) => extension_of(name@) == Some(e@),
            None => extension_of(name@) == None::<Seq<char>>,
        },
{
    let n = name.unicode_len();
    let mut i: usize = n;
    while i > 0
        invariant
            i <= n,
            n == name@.len(),
            forall|j: int| i <= j < n ==> name@[j] != '.',
        decreases i,
    {
        if name.get_char(i - 1) == '.' {
            proof {
                lemma_last_dot_at(name@, i - 1);
            }
            return Some(name.substring_char(i, n).to_owned());
        }
        i = i - 1;
    }
    proof {
        lemma_last_dot_none(name@);
    }
    None
}

/// The fixed table of the declared policy, from extension to content type.
pub open spec fn table_content_type(ext: Seq<char>) -> Seq<char> {
    if ext == "png"@ {
        "image/png"@
    } else if ext == "jpg"@ || ext == "jpeg"@ {
        "image/jpeg"@
    } else if ext == "gif"@ {
        "image/gif"@
    } else {
        octet_stream()
    }
}

/// The content type under the declared policy of a file stored as `name`.
pub open spec fn declared_content_type(name: Seq<char>) -> Seq<char> {
    match extension_of(name) {
        Some(ext) => table_content_type(ext),
        None => octet_stream(),
    }
}

/// Looks an extension up in the fixed table.
pub fn content_type_for_extension(ext: &str) -> (content_type: &'static str)
    ensures
        content_type@ == table_content_type(ext@),
{
    if same_text(ext, "png") {
        "image/png"
    } else if same_text(ext, "jpg") || same_text(ext, "jpeg") {
        "image/jpeg"
    } else if same_text(ext, "gif") {
        "image/gif"
    } else {
        "application/octet-stream"
    }
}

/// The content type of a stored file under the declared policy.
pub fn content_type_of_name(name: &str) -> (content_type: &'static str)
    ensures
        content_type@ == declared_content_type(name@),
{
    match file_extension(name) {
        Some(ext) => content_type_for_extension(ext.as_str()),
        None => "application/octet-stream",
    }
}

/// The name under which an upload is stored: identifier, dot, extension.
pub open spec fn file_name_of(id: Seq<char>, ext: Seq<char>) -> Seq<char> {
    id + "."@ + ext
}

/// A stored name gives its extension back, whatever the identifier, as long as
/// the extension itself holds no dot.
pub proof fn lemma_extension_round_trip(id: Seq<char>, ext: Seq<char>)
    requires
        forall|j: int| 0 <= j < ext.len() ==> ext[j] != '.',
    ensures
        extension_of(file_name_of(id, ext)) == Some(ext),
        declared_content_type(file_name_of(id, ext)) == table_content_type(ext),
{
    reveal_strlit(".");
    let name = file_name_of(id, ext);
    assert(name.len() == id.len() + 1 + ext.len());
    assert(name[id.len() as int] == '.');
    assert forall|j: int| id.len() < j < name.len() implies name[j] != '.' by {
        assert(name[j] == ext[j - id.len() - 1]);
    }
    lemma_last_dot_at(name, id.len() as int);
    assert(name.subrange(id.len() as int + 1, name.len() as int) =~= ext);
}

/// An upload that declares the sub-type `png` is served as `image/png` under
/// the declared policy, and one that declares nothing as
/// `application/octet-stream`.
pub proof fn lemma_declared_types_come_back(id: Seq<char>)
    ensures
        declared_content_type(file_name_of(id, extension_for(Some("png"@)))) == "image/png"@,
        declared_content_type(file_name_of(id, extension_for(None))) == octet_stream(),
{
    reveal_strlit("png");
    reveal_strlit("bin");
    reveal_strlit("jpg");
    reveal_strlit("jpeg");
    reveal_strlit("gif");
    lemma_extension_round_trip(id, "png"@);
    lemma_extension_round_trip(id, "bin"@);
    assert("bin"@ != "png"@) by {
        assert("bin"@[0] != "png"@[0]);
    }
    assert("bin"@ != "jpg"@) by {
        assert("bin"@[0] != "jpg"@[0]);
    }
    assert("bin"@ != "gif"@) by {
        assert("bin"@[0] != "gif"@[0]);
    }
    assert("bin"@ != "jpeg"@) by {
        assert("bin"@.len() != "jpeg"@.len());
    }
}

/// The content type that mime_guess's table of extensions gives a path:
/// `mime_guess::from_path(path).first_or_octet_stream()`, as text.
pub uninterp spec fn guessed_content_type(path: Seq<char>) -> Seq<char>;

/// Calls mime_guess's `from_path` on `path`, takes the guess's
/// `first_or_octet_stream` and returns that media type as text. The guess is
/// made from the path's extension alone, as std's `Path::extension` finds it,
/// by a table compiled into the crate; the file is never opened. The contract
/// gives the result its name and claims nothing else of it.
#[verifier::external_body]
pub(crate) fn guess_content_type(path: &str) -> (content_type: String)
    ensures
        content_type@ == guessed_content_type(path@),
{
    mime_guess::from_path(path).first_or_octet_stream().as_ref().to_owned()
}

/// How the viewer page shows a file.
#[derive(Clone, Copy, Debug, PartialEq, Eq, Structural)]
pub enum Embed {
    /// Shown inline as an image.
    Image,
    /// Shown inline as a video.
    Video,
    /// Plain text, offered for download.
    Text,
    /// Anything else, offered for download.
    Other,
}

/// The way of showing a file of the given content type.
pub open spec fn embed_for(content_type: Seq<char>) -> Embed {
    if content_type == "image/png"@ || content_type == "image/jpeg"@ || content_type
        == "image/gif"@ {
        Embed::Image
    } else if content_type == "video/mp4"@ || content_type == "video/webm"@ {
        Embed::Video
    } else if content_type == "text/plain"@ {
        Embed::Text
    } else {
        Embed::Other
    }
}

/// Decides how the viewer page shows a file of the given content type.
pub fn classify(content_type: &str) -> (embed: Embed)
    ensures
        embed == embed_for(content_type@),
{
    if same_text(content_type, "image/png") || same_text(content_type, "image/jpeg")
        || same_text(content_type, "image/gif") {
        Embed::Image
    } else if same_text(content_type, "video/mp4") || same_text(content_type, "video/webm") {
        Embed::Video
    } else if same_text(content_type, "text/plain") {
        Embed::Text
    } else {
        Embed::Other
    }
}

/// The Open Graph type that goes with a way of showing a file.
pub open spec fn og_type_of(embed: Embed) -> Seq<char> {
    match embed {
        Embed::Image => "image"@,
        Embed::Video => "video"@,
        Embed::Text => "article"@,
        Embed::Other => "file"@,
    }
}

/// The Open Graph type for a way of showing a file.
pub fn og_type(embed: Embed) -> (name: &'static str)
    ensures
        name@ == og_type_of(embed),
{
    match embed {
        Embed::Image => "image",
        Embed::Video => "video",
        Embed::Text => "article",
        Embed::Other => "file",
    }
}

} // verus!
