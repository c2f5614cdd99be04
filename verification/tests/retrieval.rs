use file_host::reply::BodyKind;
use file_host::retrieval::{
    file_url, not_found_reply, raw_headers, render_embed, render_page, serve_raw, view_file,
    view_reply_for,
};
use file_host::content_type::Embed;
use file_host::upload::UploadSession;

fn page(file_url: &str, og_type: &str, embed_html: &str) -> String {
    format!(
        r#"
                <!DOCTYPE html>
                <html>
                <head>
                    <meta property="og:image" content="{}">
                    <meta property="og:type" content="{}">
                    <meta property="og:title" content="Uploaded File">
                    <meta charset="utf-8" />
                </head>
                <body>
                    {}
                </body>
                </html>
                "#,
        file_url, og_type, embed_html
    )
}

#[test]
fn a_missing_file_is_not_found() {
    let reply = view_file("http://localhost:8080", "doesnotexist.png", false);
    assert_eq!(reply.status, 404);
    assert_eq!(reply.kind, BodyKind::PlainText);
    assert_eq!(reply.body, "File not found");
    assert_eq!(reply, not_found_reply());
}

#[test]
fn any_missing_file_is_not_found() {
    for id in ["", "a", "a.mp4", "../etc/passwd", "a/b", "x.unknown-extension", "日本.png"] {
        let reply = view_file("http://h", id, false);
        assert_eq!(reply, not_found_reply(), "{:?}", id);
        assert_eq!(view_reply_for("http://h", id, false, "image/png"), not_found_reply());
        assert_eq!(serve_raw(id, false), Err(not_found_reply()));
    }
}

#[test]
fn a_video_is_shown_with_a_video_tag() {
    let reply = view_file("http://localhost:8080", "clip.mp4", true);
    assert_eq!(reply.status, 200);
    assert_eq!(reply.kind, BodyKind::Html);
    assert!(reply.body.contains(
        "<video controls><source src=\"http://localhost:8080/files/clip.mp4\" type=\"video/mp4\">"
    ));
    assert!(reply.body.contains("<meta property=\"og:type\" content=\"video\">"));
    assert!(reply.body.contains(
        "<meta property=\"og:image\" content=\"http://localhost:8080/files/clip.mp4\">"
    ));
    assert_eq!(
        reply.body,
        page(
            "http://localhost:8080/files/clip.mp4",
            "video",
            "<video controls><source src=\"http://localhost:8080/files/clip.mp4\" type=\"video/mp4\">Your browser does not support the video tag.</video>"
        )
    );
}

#[test]
fn a_webm_video_names_its_own_type() {
    let reply = view_file("http://h", "clip.webm", true);
    assert_eq!(
        reply.body,
        page(
            "http://h/files/clip.webm",
            "video",
            "<video controls><source src=\"http://h/files/clip.webm\" type=\"video/webm\">Your browser does not support the video tag.</video>"
        )
    );
}

#[test]
fn an_image_is_shown_inline() {
    for id in ["pic.png", "pic.jpg", "pic.jpeg", "pic.gif", "PIC.PNG"] {
        let reply = view_file("http://h", id, true);
        let url = format!("http://h/files/{}", id);
        let embed = format!(
            "<img src=\"{}\" alt=\"Uploaded content\" style=\"max-width: 100%;\" />",
            url
        );
        assert_eq!(reply.status, 200);
        assert_eq!(reply.kind, BodyKind::Html);
        assert_eq!(reply.body, page(&url, "image", &embed), "{:?}", id);
    }
}

#[test]
fn plain_text_is_offered_for_download() {
    let reply = view_file("http://h", "notes.txt", true);
    assert_eq!(
        reply.body,
        page(
            "http://h/files/notes.txt",
            "article",
            "<pre style=\"white-space: pre-wrap;\">Content not directly viewable here. Download: <a href=\"http://h/files/notes.txt\">notes.txt</a></pre>"
        )
    );
}

#[test]
fn anything_else_is_offered_as_a_file() {
    for id in ["data.bin", "archive.zip", "noextension", "doc.pdf", "x.plain", "page.html"] {
        let reply = view_file("http://h", id, true);
        let url = format!("http://h/files/{}", id);
        let embed = format!(
            "<p>Content not directly viewable. Download: <a href=\"{}\">{}</a></p>",
            url, id
        );
        assert_eq!(reply.status, 200);
        assert_eq!(reply.body, page(&url, "file", &embed), "{:?}", id);
    }
}

#[test]
fn retrieval_answers_alike_every_time() {
    for (id, there) in [("a.png", true), ("a.mp4", true), ("a.bin", true), ("a.png", false)] {
        let first = view_file("http://h", id, there);
        let second = view_file("http://h", id, there);
        let third = view_file("http://h", id, there);
        assert_eq!(first, second);
        assert_eq!(second, third);
        assert_eq!(serve_raw(id, there), serve_raw(id, there));
    }
}

#[test]
fn the_viewer_agrees_with_the_table_of_known_extensions() {
    for id in ["a.png", "a.webm", "a.txt", "a.svg", "a.tar.gz", "a", "a.", ".png", "a.JPEG"] {
        let guessed = mime_guess::from_path(format!("./uploads/{}", id)).first_or_octet_stream();
        assert_eq!(
            view_file("http://h", id, true),
            view_reply_for("http://h", id, true, guessed.as_ref()),
            "{:?}",
            id
        );
    }
}

#[test]
fn the_page_is_built_from_the_given_content_type() {
    assert_eq!(
        render_page("http://h", "a.bin", "image/png"),
        page(
            "http://h/files/a.bin",
            "image",
            "<img src=\"http://h/files/a.bin\" alt=\"Uploaded content\" style=\"max-width: 100%;\" />"
        )
    );
    assert_eq!(
        render_page("", "", ""),
        page("/files/", "file", "<p>Content not directly viewable. Download: <a href=\"/files/\"></a></p>")
    );
    let reply = view_reply_for("http://h", "a.bin", true, "video/webm");
    assert_eq!(reply.status, 200);
    assert_eq!(reply.kind, BodyKind::Html);
    assert_eq!(reply.body, render_page("http://h", "a.bin", "video/webm"));
}

#[test]
fn each_embed_has_its_markup() {
    assert_eq!(
        render_embed(Embed::Image, "U", "T", "I"),
        "<img src=\"U\" alt=\"Uploaded content\" style=\"max-width: 100%;\" />"
    );
    assert_eq!(
        render_embed(Embed::Video, "U", "T", "I"),
        "<video controls><source src=\"U\" type=\"T\">Your browser does not support the video tag.</video>"
    );
    assert_eq!(
        render_embed(Embed::Text, "U", "T", "I"),
        "<pre style=\"white-space: pre-wrap;\">Content not directly viewable here. Download: <a href=\"U\">I</a></pre>"
    );
    assert_eq!(
        render_embed(Embed::Other, "U", "T", "I"),
        "<p>Content not directly viewable. Download: <a href=\"U\">I</a></p>"
    );
}

#[test]
fn the_download_link_is_base_files_and_name() {
    assert_eq!(file_url("http://localhost:8080", "a.png"), "http://localhost:8080/files/a.png");
    assert_eq!(file_url("", ""), "/files/");
}

#[test]
fn a_raw_download_is_inline_and_cached_for_a_year() {
    let headers = serve_raw("pic.png", true).unwrap();
    assert_eq!(headers.content_type, "image/png");
    assert_eq!(headers.content_disposition, "inline");
    assert_eq!(headers.cache_control, "public, max-age=31536000");
    assert_eq!(headers, raw_headers("image/png"));
    assert_eq!(365 * 24 * 60 * 60, 31536000);
}

#[test]
fn a_raw_download_takes_its_type_from_the_fixed_table() {
    assert_eq!(serve_raw("a.jpg", true).unwrap().content_type, "image/jpeg");
    assert_eq!(serve_raw("a.jpeg", true).unwrap().content_type, "image/jpeg");
    assert_eq!(serve_raw("a.gif", true).unwrap().content_type, "image/gif");
    assert_eq!(serve_raw("a.mp4", true).unwrap().content_type, "application/octet-stream");
    assert_eq!(serve_raw("a", true).unwrap().content_type, "application/octet-stream");
}

#[test]
fn a_declared_png_comes_back_as_image_png() {
    let session = UploadSession::open(Some("png"), 100);
    let name = session.file_name().to_string();
    assert_eq!(serve_raw(&name, true).unwrap().content_type, "image/png");
    let reply = view_file("http://h", &name, true);
    assert!(reply.body.contains(&format!("<img src=\"http://h/files/{}\"", name)));
    assert!(reply.body.contains("<meta property=\"og:type\" content=\"image\">"));
}

#[test]
fn an_upload_without_declared_type_comes_back_as_octet_stream() {
    let session = UploadSession::open(None, 100);
    let name = session.file_name().to_string();
    assert!(name.ends_with(".bin"));
    assert_eq!(serve_raw(&name, true).unwrap().content_type, "application/octet-stream");
    let guessed = mime_guess::from_path(format!("./uploads/{}", name)).first_or_octet_stream();
    assert_eq!(guessed.as_ref(), "application/octet-stream");
    let reply = view_file("http://h", &name, true);
    assert!(reply.body.contains("<meta property=\"og:type\" content=\"file\">"));
}
