use vstd::prelude::*;

verus! {

/// The media type a reply declares for its body.
#[derive(Clone, Copy, Debug, PartialEq, Eq, Structural)]
pub enum ContentType {
    Html,
    PlainText,
}

impl ContentType {
    /// The header value sent for this media type.
    pub fn header_value(&self) -> (r: &'static str)
        ensures
            *self == ContentType::Html ==> r@ == "text/html; charset=utf-8"@,
            *self == ContentType::PlainText ==> r@ == "text/plain; charset=utf-8"@,
    {
        match self {
            ContentType::Html => "text/html; charset=utf-8",
            ContentType::PlainText => "text/plain; charset=utf-8",
        }
    }
}

/// A complete answer to one request: status code, media type (none for an
/// empty body) and body text.
#[derive(Debug)]
pub struct Reply {
    pub status: u16,
    pub content_type: Option<ContentType>,
    pub body: String,
}

/// The mathematical value of a [`Reply`].
pub ghost struct ReplyView {
    pub status: u16,
    pub content_type: Option<ContentType>,
    pub body: Seq<char>,
}

impl View for Reply {
    type V = ReplyView;

    open spec fn view(&self) -> ReplyView {
        ReplyView { status: self.status, content_type: self.content_type, body: self.body@ }
    }
}

pub open spec fn render_failure_prefix() -> Seq<char> {
    "Failed to render template. Error: "@
}

/// The reply to a page request, given the outcome of rendering its template:
/// the rendered HTML with status 200, or status 500 with a message that
/// carries the renderer's error description.
pub open spec fn page_reply_view(rendered: Result<Seq<char>, Seq<char>>) -> ReplyView {
    match rendered {
        Ok(html) => ReplyView { status: 200, content_type: Some(ContentType::Html), body: html },
        Err(e) => ReplyView {
            status: 500,
            content_type: Some(ContentType::PlainText),
            body: render_failure_prefix() + e,
        },
    }
}

pub open spec fn hello_text() -> Seq<char> {
    seq!['H', 'e', 'l', 'l', 'o', '!']
}

pub open spec fn hello_reply_view() -> ReplyView {
    ReplyView { status: 200, content_type: Some(ContentType::PlainText), body: hello_text() }
}

pub open spec fn not_found_reply_view() -> ReplyView {
    ReplyView { status: 404, content_type: None, body: Seq::empty() }
}

pub open spec fn method_not_allowed_reply_view() -> ReplyView {
    ReplyView { status: 405, content_type: None, body: Seq::empty() }
}

pub open spec fn result_view(r: Result<String, String>) -> Result<Seq<char>, Seq<char>> {
    match r {
        Ok(s) => Ok(s@),
        Err(e) => Err(e@),
    }
}

/// Turns the outcome of rendering a page template into the reply sent.
pub fn page_reply(rendered: Result<String, String>) -> (r: Reply)
    ensures
        r@ == page_reply_view(result_view(rendered)),
{
    match rendered {
        Ok(html) => Reply { status: 200, content_type: Some(ContentType::Html), body: html },
        Err(e) => {
            let mut body = "Failed to render template. Error: ".to_owned();
            body.append(e.as_str());
            Reply { status: 500, content_type: Some(ContentType::PlainText), body }
        },
    }
}

/// The greeting of the API mount: always `Hello!` as plain text.
pub fn say_hello() -> (r: Reply)
    ensures
        r@ == hello_reply_view(),
{
    let body = "Hello!".to_owned();
    proof {
        reveal_strlit("Hello!");
        assert(body@ =~= hello_text());
    }
    Reply { status: 200, content_type: Some(ContentType::PlainText), body }
}

/// The reply for a request that no route and no asset answers.
pub fn not_found() -> (r: Reply)
    ensures
        r@ == not_found_reply_view(),
{
    Reply { status: 404, content_type: None, body: String::new() }
}

/// The reply for a known path asked for with a method it does not serve.
pub fn method_not_allowed() -> (r: Reply)
    ensures
        r@ == method_not_allowed_reply_view(),
{
    Reply { status: 405, content_type: None, body: String::new() }
}

} // verus!
