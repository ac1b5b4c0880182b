//! Facts about whole requests, stated over the route table and the replies.
use vstd::prelude::*;

use crate::reply::{
    hello_reply_view, hello_text, page_reply_view, render_failure_prefix, ContentType, ReplyView,
};
use crate::routing::{
    assets_mount, is_asset_path, is_path_end, is_read,
    lemma_path_of, path_of, route_view, Method, Page, RouteView,
};
use crate::startup::{is_port_text, port_setting_view};

verus! {

/// Every read of `/`, whatever its query, renders the home page; the reply is
/// the rendered HTML with status 200, or, when rendering fails, status 500
/// with a body that contains the renderer's error description.
pub proof fn home_page_reply(m: Method, t: Seq<char>, rendered: Result<Seq<char>, Seq<char>>)
    requires
        is_read(m),
        path_of(t) == "/"@,
    ensures
        route_view(m, t) == RouteView::Page(Page::Home),
        rendered is Ok ==> page_reply_view(rendered) == (ReplyView {
            status: 200,
            content_type: Some(ContentType::Html),
            body: rendered->Ok_0,
        }),
        rendered is Err ==> ({
            let body = page_reply_view(rendered).body;
            let e = rendered->Err_0;
            &&& page_reply_view(rendered).status == 500
            &&& exists|k: int|
                0 <= k && k + e.len() <= body.len() && #[trigger] body.subrange(k, k + e.len())
                    == e
        }),
{
    if rendered is Err {
        let e = rendered->Err_0;
        let body = page_reply_view(rendered).body;
        let k = render_failure_prefix().len() as int;
        assert(body.subrange(k, k + e.len()) =~= e);
    }
}

/// A read of `/api/hello` is answered by the greeting whatever query it
/// carries, and the greeting is status 200 with the body `Hello!`.
pub proof fn hello_ignores_query(m: Method, q: Seq<char>)
    requires
        is_read(m),
    ensures
        route_view(m, "/api/hello"@) == RouteView::Hello,
        route_view(m, "/api/hello"@ + seq!['?'] + q) == RouteView::Hello,
        hello_reply_view().status == 200,
        hello_reply_view().body == "Hello!"@,
{
    reveal_strlit("/api/hello");
    reveal_strlit("Hello!");
    reveal_strlit("/");
    reveal_strlit("/learn");
    let plain = "/api/hello"@;
    let t = plain + seq!['?'] + q;
    assert(is_path_end(plain, 10));
    lemma_path_of(plain, 10);
    assert(plain.take(10) =~= plain);
    assert(is_path_end(t, 10));
    lemma_path_of(t, 10);
    assert(t.take(10) =~= plain);
    assert(hello_text() =~= "Hello!"@);
}

/// Whatever the request, the file server is only ever handed a path that
/// starts with `/` and is the request path with the mount point taken off,
/// so that it resolves the file below its own root.
pub proof fn asset_paths_below_mount(m: Method, t: Seq<char>)
    ensures
        route_view(m, t) is Asset ==> ({
            let rest = route_view(m, t)->Asset_0;
            &&& rest.len() > 0
            &&& rest[0] == '/'
            &&& path_of(t) == assets_mount() + rest || (path_of(t) == assets_mount() && rest
                == seq!['/'])
        }),
{
    reveal_strlit("/assets");
    let p = path_of(t);
    if route_view(m, t) is Asset && p.len() > 7 {
        assert(p =~= p.take(7) + p.skip(7));
    }
}

/// A path that is none of the pages, not the greeting and not under the
/// assets mount is not found, under any method.
pub proof fn unknown_path_not_found(m: Method, t: Seq<char>)
    requires
        path_of(t) != "/"@,
        path_of(t) != "/learn"@,
        path_of(t) != "/api/hello"@,
        !is_asset_path(path_of(t)),
    ensures
        route_view(m, t) == RouteView::NotFound,
{
}

/// Without a `PORT` setting, or with one that names no port, startup fails;
/// no port is made up.
pub proof fn port_required(var: Option<Seq<char>>)
    requires
        var is None || !is_port_text(var->Some_0),
    ensures
        port_setting_view(var) is Err,
{
}

} // verus!
