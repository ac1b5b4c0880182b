use axum_static_web_server::reply::{method_not_allowed, not_found, page_reply, say_hello};
use axum_static_web_server::ContentType;

#[test]
fn hello_is_fixed_text() {
    let r = say_hello();
    assert_eq!(r.status, 200);
    assert_eq!(r.content_type, Some(ContentType::PlainText));
    assert_eq!(r.body, "Hello!");
}

#[test]
fn rendered_page_is_html() {
    let r = page_reply(Ok("<h1>Home</h1>".to_string()));
    assert_eq!(r.status, 200);
    assert_eq!(r.content_type, Some(ContentType::Html));
    assert_eq!(r.body, "<h1>Home</h1>");
}

#[test]
fn render_failure_is_500_with_description() {
    let r = page_reply(Err("template not found".to_string()));
    assert_eq!(r.status, 500);
    assert_eq!(r.content_type, Some(ContentType::PlainText));
    assert_eq!(r.body, "Failed to render template. Error: template not found");
    assert!(r.body.contains("template not found"));
}

#[test]
fn not_found_and_method_not_allowed_are_empty() {
    let r = not_found();
    assert_eq!(r.status, 404);
    assert_eq!(r.content_type, None);
    assert!(r.body.is_empty());
    let r = method_not_allowed();
    assert_eq!(r.status, 405);
    assert_eq!(r.content_type, None);
    assert!(r.body.is_empty());
}

#[test]
fn header_values() {
    assert_eq!(ContentType::Html.header_value(), "text/html; charset=utf-8");
    assert_eq!(ContentType::PlainText.header_value(), "text/plain; charset=utf-8");
}
