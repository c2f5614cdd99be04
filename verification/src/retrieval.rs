//! Retrieval of stored files: the viewer page with its link-preview tags, the
//! headers of a raw download, and the reply for a file that is not there.
//!
//! Whether the file exists is for the caller to find out; everything else is
//! decided here.

use vstd::prelude::*;
use vstd::string::*;
use crate::content_type::{
    Embed, classify, content_type_of_name, declared_content_type, embed_for, guess_content_type,
    guessed_content_type, og_type, og_type_of,
};
use crate::reply::{BodyKind, Reply, ReplyView, plain, plain_reply};
use crate::store::{storage_path, storage_path_of};
use crate::text::join;

verus! {

/// The reply for a file that is not there.
pub open spec fn not_found() -> ReplyView {
    plain(crate::reply::STATUS_NOT_FOUND, "File not found"@)
}

/// The two ways in which a deployment hands stored files out. A deployment
/// picks one for its retrieval route.
#[derive(Clone, Copy, Debug, PartialEq, Eq, Structural)]
pub enum Mode {
    /// An HTML page around the file, under `/view/`.
    Viewer,
    /// The file's bytes themselves, under `/`.
    Raw,
}

/// The link that a reply to an upload holds: where the stored file
/// `file_name` is retrieved in the given mode.
pub open spec fn retrieval_link(mode: Mode, base_url: Seq<char>, file_name: Seq<char>) -> Seq<
    char,
> {
    match mode {
        Mode::Viewer => base_url + "/view/"@ + file_name,
        Mode::Raw => base_url + "/"@ + file_name,
    }
}

/// The link under which the bytes of a stored file are downloaded.
pub open spec fn file_link(base_url: Seq<char>, file_id: Seq<char>) -> Seq<char> {
    base_url + "/files/"@ + file_id
}

/// The part of the viewer page that shows or offers the file.
pub open spec fn embed_html(
    embed: Embed,
    file_url: Seq<char>,
    content_type: Seq<char>,
    file_id: Seq<char>,
) -> Seq<char> {
    match embed {
        Embed::Image => "<img src=\""@ + file_url
            + "\" alt=\"Uploaded content\" style=\"max-width: 100%;\" />"@,
        Embed::Video => "<video controls><source src=\""@ + file_url + "\" type=\""@ + content_type
            + "\">Your browser does not support the video tag.</video>"@,
        Embed::Text =>
            "<pre style=\"white-space: pre-wrap;\">Content not directly viewable here. Download: <a href=\""@
            + file_url + "\">"@ + file_id + "</a></pre>"@,
        Embed::Other => "<p>Content not directly viewable. Download: <a href=\""@ + file_url
            + "\">"@ + file_id + "</a></p>"@,
    }
}

/// The viewer page around its three variable parts. The preview image is the
/// file's own link whatever the file is.
pub open spec fn page_html(file_url: Seq<char>, og: Seq<char>, embed: Seq<char>) -> Seq<char> {
    "\n                <!DOCTYPE html>\n                <html>\n                <head>\n                    <meta property=\"og:image\" content=\""@
        + file_url + "\">\n                    <meta property=\"og:type\" content=\""@ + og
        + "\">\n                    <meta property=\"og:title\" content=\"Uploaded File\">\n                    <meta charset=\"utf-8\" />\n                </head>\n                <body>\n                    "@
        + embed + "\n                </body>\n                </html>\n                "@
}

/// The viewer page of the file `file_id` of the given content type.
pub open spec fn viewer_page(
    base_url: Seq<char>,
    file_id: Seq<char>,
    content_type: Seq<char>,
) -> Seq<char> {
    let embed = embed_for(content_type);
    let file_url = file_link(base_url, file_id);
    page_html(file_url, og_type_of(embed), embed_html(embed, file_url, content_type, file_id))
}

/// The reply to a request for the viewer page of `file_id`: the page if the
/// file is there, else the not-found reply.
pub open spec fn view_reply(
    base_url: Seq<char>,
    file_id: Seq<char>,
    is_file: bool,
    content_type: Seq<char>,
) -> ReplyView {
    if is_file {
        ReplyView {
            status: crate::reply::STATUS_OK,
            kind: BodyKind::Html,
            body: viewer_page(base_url, file_id, content_type),
        }
    } else {
        not_found()
    }
}

/// The reply for a file that is not there.
pub fn not_found_reply() -> (r: Reply)
    ensures
        r@ == not_found(),
{
    plain_reply(crate::reply::STATUS_NOT_FOUND, "File not found")
}

/// The link at which the stored file `file_name` is retrieved in the given
/// mode.
pub fn retrieval_url(mode: Mode, base_url: &str, file_name: &str) -> (url: String)
    ensures
        url@ == retrieval_link(mode, base_url@, file_name@),
{
    let mut url = match mode {
        Mode::Viewer => join(base_url, "/view/"),
        Mode::Raw => join(base_url, "/"),
    };
    url.append(file_name);
    url
}

/// The link under which the bytes of a stored file are downloaded.
pub fn file_url(base_url: &str, file_id: &str) -> (url: String)
    ensures
        url@ == file_link(base_url@, file_id@),
{
    let mut url = join(base_url, "/files/");
    url.append(file_id);
    url
}

/// Writes the part of the viewer page that shows or offers the file.
pub fn render_embed(embed: Embed, file_url: &str, content_type: &str, file_id: &str) -> (html:
    String)
    ensures
        html@ == embed_html(embed, file_url@, content_type@, file_id@),
{
    match embed {
        Embed::Image => {
            let mut html = join("<img src=\"", file_url);
            html.append("\" alt=\"Uploaded content\" style=\"max-width: 100%;\" />");
            html
        },
        Embed::Video => {
            let mut html = join("<video controls><source src=\"", file_url);
            html.append("\" type=\"");
            html.append(content_type);
            html.append("\">Your browser does not support the video tag.</video>");
            html
        },
        Embed::Text => {
            let mut html = join(
                "<pre style=\"white-space: pre-wrap;\">Content not directly viewable here. Download: <a href=\"",
                file_url,
            );
            html.append("\">");
            html.append(file_id);
            html.append("</a></pre>");
            html
        },
        Embed::Other => {
            let mut html = join(
                "<p>Content not directly viewable. Download: <a href=\"",
                file_url,
            );
            html.append("\">");
            html.append(file_id);
            html.append("</a></p>");
            html
        },
    }
}

/// Writes the viewer page of the file `file_id` of the given content type.
pub fn render_page(base_url: &str, file_id: &str, content_type: &str) -> (html: String)
    ensures
        html@ == viewer_page(base_url@, file_id@, content_type@),
{
    let embed = classify(content_type);
    let url = file_url(base_url, file_id);
    let shown = render_embed(embed, url.as_str(), content_type, file_id);
    let mut html = join(
        "\n                <!DOCTYPE html>\n                <html>\n                <head>\n                    <meta property=\"og:image\" content=\"",
        url.as_str(),
    );
    html.append("\">\n                    <meta property=\"og:type\" content=\"");
    html.append(og_type(embed));
    html.append(
        "\">\n                    <meta property=\"og:title\" content=\"Uploaded File\">\n                    <meta charset=\"utf-8\" />\n                </head>\n                <body>\n                    ",
    );
    html.append(shown.as_str());
    html.append("\n                </body>\n                </html>\n                ");
    html
}

/// The reply to a request for the viewer page of `file_id`, once the caller
/// knows whether the file is there and of what content type it is.
pub fn view_reply_for(base_url: &str, file_id: &str, is_file: bool, content_type: &str) -> (r:
    Reply)
    ensures
        r@ == view_reply(base_url@, file_id@, is_file, content_type@),
        !is_file ==> r@ == not_found(),
{
    if is_file {
        Reply {
            status: crate::reply::STATUS_OK,
            kind: BodyKind::Html,
            body: render_page(base_url, file_id, content_type),
        }
    } else {
        not_found_reply()
    }
}

/// Answers a request for the viewer page of `file_id`. The caller says whether
/// a regular file is stored under that name; the content type is guessed from
/// the stored path's extension. The reply depends on nothing else, so that the
/// same request on the same store is answered alike every time.
pub fn view_file(base_url: &str, file_id: &str, is_file: bool) -> (r: Reply)
    ensures
        r@ == view_reply(
            base_url@,
            file_id@,
            is_file,
            guessed_content_type(storage_path_of(file_id@)),
        ),
        !is_file ==> r@ == not_found(),
{
    if is_file {
        let path = storage_path(file_id);
        let content_type = guess_content_type(path.as_str());
        view_reply_for(base_url, file_id, true, content_type.as_str())
    } else {
        not_found_reply()
    }
}

/// The headers that go with the bytes of a raw download.
#[derive(Clone, Debug, PartialEq, Eq)]
pub struct RawHeaders {
    /// The value of `Content-Type`.
    pub content_type: String,
    /// The value of `Content-Disposition`.
    pub content_disposition: String,
    /// The value of `Cache-Control`.
    pub cache_control: String,
}

/// The headers of a raw download as a mathematical value.
pub struct RawHeadersView {
    pub content_type: Seq<char>,
    pub content_disposition: Seq<char>,
    pub cache_control: Seq<char>,
}

impl View for RawHeaders {
    type V = RawHeadersView;

    open spec fn view(&self) -> RawHeadersView {
        RawHeadersView {
            content_type: self.content_type@,
            content_disposition: self.content_disposition@,
            cache_control: self.cache_control@,
        }
    }
}

/// The headers of a raw download of the given content type: shown inline, and
/// cacheable by anyone for a year.
pub open spec fn raw_headers_for(content_type: Seq<char>) -> RawHeadersView {
    RawHeadersView {
        content_type,
        content_disposition: "inline"@,
        cache_control: "public, max-age=31536000"@,
    }
}

/// The headers of a raw download of the given content type.
pub fn raw_headers(content_type: &str) -> (h: RawHeaders)
    ensures
        h@ == raw_headers_for(content_type@),
{
    RawHeaders {
        content_type: content_type.to_owned(),
        content_disposition: "inline".to_owned(),
        cache_control: "public, max-age=31536000".to_owned(),
    }
}

/// Answers a request for the bytes of `file_id` under the declared policy:
/// the headers to send with the file's bytes if the caller found the file,
/// else the not-found reply.
pub fn serve_raw(file_id: &str, is_file: bool) -> (r: Result<RawHeaders, Reply>)
    ensures
        match r {
            Ok(h) => is_file && h@ == raw_headers_for(declared_content_type(file_id@)),
            Err(reply) => !is_file && reply@ == not_found(),
        },
{
    if is_file {
        Ok(raw_headers(content_type_of_name(file_id)))
    } else {
        Err(not_found_reply())
    }
}

} // verus!
