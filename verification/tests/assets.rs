use cloud_console::{StaticFile, StaticResponse};

#[test]
fn file_that_is_held_is_served_with_its_media_type() {
    let file = StaticFile(String::from("index.html"));
    let response = file.respond(Some(b"<html></html>".to_vec()));
    assert_eq!(response.status, 200);
    assert_eq!(response.content_type, Some(String::from("text/html")));
    assert_eq!(response.body, b"<html></html>".to_vec());
}

#[test]
fn media_type_goes_by_the_extension() {
    let script = StaticFile(String::from("assets/app.js")).respond(Some(vec![1]));
    assert_eq!(script.content_type.as_deref(), Some("text/javascript"));
    let style = StaticFile(String::from("assets/site.CSS")).respond(Some(vec![2]));
    assert_eq!(style.content_type.as_deref(), Some("text/css"));
    let image = StaticFile(String::from("logo.png")).respond(Some(vec![3]));
    assert_eq!(image.content_type.as_deref(), Some("image/png"));
}

#[test]
fn unknown_extension_is_an_octet_stream() {
    let response = StaticFile(String::from("blob.zzzunknown")).respond(Some(vec![0, 1]));
    assert_eq!(response.status, 200);
    assert_eq!(response.content_type.as_deref(), Some("application/octet-stream"));
    let bare = StaticFile(String::from("LICENSE")).respond(Some(vec![]));
    assert_eq!(bare.content_type.as_deref(), Some("application/octet-stream"));
    assert_eq!(bare.body, Vec::<u8>::new());
}

#[test]
fn file_that_is_not_held_is_a_404() {
    let response = StaticFile(String::from("missing.html")).respond(None);
    assert_eq!(response.status, 404);
    assert_eq!(response.content_type, None);
    assert_eq!(response.body, b"404".to_vec());
    assert_eq!(response, StaticResponse::not_found());
}

#[test]
fn found_holds_what_it_is_given() {
    let response = StaticResponse::found(String::from("text/plain"), b"hi".to_vec());
    assert_eq!(
        response,
        StaticResponse {
            status: 200,
            content_type: Some(String::from("text/plain")),
            body: b"hi".to_vec(),
        }
    );
}

#[test]
fn request_path_loses_its_leading_slashes() {
    assert_eq!(StaticFile::for_uri_path("/index.html"), StaticFile(String::from("index.html")));
    assert_eq!(StaticFile::for_uri_path("///a/b.css"), StaticFile(String::from("a/b.css")));
    assert_eq!(StaticFile::for_uri_path("assets/app.js"), StaticFile(String::from("assets/app.js")));
    assert_eq!(StaticFile::for_uri_path("/dir/"), StaticFile(String::from("dir/")));
}

#[test]
fn request_path_of_slashes_only_is_empty() {
    assert_eq!(StaticFile::for_uri_path(""), StaticFile(String::new()));
    assert_eq!(StaticFile::for_uri_path("/"), StaticFile(String::new()));
    assert_eq!(StaticFile::for_uri_path("//"), StaticFile(String::new()));
}

#[test]
fn request_path_may_hold_any_characters() {
    assert_eq!(
        StaticFile::for_uri_path("/caf\u{e9}/\u{1f600}.png"),
        StaticFile(String::from("caf\u{e9}/\u{1f600}.png"))
    );
}

#[test]
fn request_for_the_index_is_answered_from_the_store() {
    let file = StaticFile::for_uri_path("/index.html");
    let response = file.respond(Some(b"<!doctype html>".to_vec()));
    assert_eq!(response.status, 200);
    assert_eq!(response.content_type.as_deref(), Some("text/html"));
    assert_eq!(response.body, b"<!doctype html>".to_vec());
}
