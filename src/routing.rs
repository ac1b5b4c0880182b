use vstd::prelude::*;
use vstd::string::*;

use crate::text::{char_at, chars_of};

verus! {

/// The request method, as far as routing tells methods apart: every route
/// answers `GET` and `HEAD`, and no route answers any other method.
#[derive(Clone, Copy, Debug, PartialEq, Eq, Structural)]
pub enum Method {
    Get,
    Head,
    Other,
}

/// The two pages rendered from templates.
#[derive(Clone, Copy, Debug, PartialEq, Eq, Structural)]
pub enum Page {
    Home,
    LearnMore,
}

/// The handler chosen for a request.
#[derive(Debug)]
pub enum Route {
    /// Render this page.
    Page(Page),
    /// The greeting of the API mount.
    Hello,
    /// Serve a file from the assets directory; the path is the part of the
    /// request path below the mount point, and starts with `/`.
    Asset(String),
    /// The path is known, but not under this method.
    MethodNotAllowed,
    NotFound,
}

pub ghost enum RouteView {
    Page(Page),
    Hello,
    Asset(Seq<char>),
    MethodNotAllowed,
    NotFound,
}

impl View for Route {
    type V = RouteView;

    open spec fn view(&self) -> RouteView {
        match self {
            Route::Page(p) => RouteView::Page(*p),
            Route::Hello => RouteView::Hello,
            Route::Asset(s) => RouteView::Asset(s@),
            Route::MethodNotAllowed => RouteView::MethodNotAllowed,
            Route::NotFound => RouteView::NotFound,
        }
    }
}

/// Whether the methods that every route serves include `m`.
pub open spec fn is_read(m: Method) -> bool {
    m == Method::Get || m == Method::Head
}

/// `i` is where the path of request target `t` ends: at its first `?`, or at
/// its end when it has no query.
pub open spec fn is_path_end(t: Seq<char>, i: int) -> bool {
    &&& 0 <= i <= t.len()
    &&& forall|j: int| 0 <= j < i ==> t[j] != '?'
    &&& i == t.len() || t[i] == '?'
}

/// The path of a request target: everything before the query.
pub open spec fn path_of(t: Seq<char>) -> Seq<char> {
    t.take(choose|i: int| is_path_end(t, i))
}

pub open spec fn assets_mount() -> Seq<char> {
    "/assets"@
}

/// The path lies under the assets mount point: it is the mount itself or
/// continues it with `/`.
pub open spec fn is_asset_path(p: Seq<char>) -> bool {
    &&& p.len() >= 7
    &&& p.take(7) == assets_mount()
    &&& p.len() == 7 || p[7] == '/'
}

/// The part of an asset path below the mount point, as the file server sees
/// it: `/` for the mount itself.
pub open spec fn asset_rest(p: Seq<char>) -> Seq<char> {
    if p.len() == 7 {
        seq!['/']
    } else {
        p.skip(7)
    }
}

pub open spec fn read_only(m: Method, r: RouteView) -> RouteView {
    if is_read(m) {
        r
    } else {
        RouteView::MethodNotAllowed
    }
}

/// The route table, matched on the path of the target character by
/// character, whatever characters it holds; the query takes no part in
/// matching.
pub open spec fn route_view(m: Method, t: Seq<char>) -> RouteView {
    let p = path_of(t);
    if p == "/"@ {
        read_only(m, RouteView::Page(Page::Home))
    } else if p == "/learn"@ {
        read_only(m, RouteView::Page(Page::LearnMore))
    } else if p == "/api/hello"@ {
        read_only(m, RouteView::Hello)
    } else if is_asset_path(p) {
        read_only(m, RouteView::Asset(asset_rest(p)))
    } else {
        RouteView::NotFound
    }
}

proof fn lemma_path_end_unique(t: Seq<char>, i: int, k: int)
    requires
        is_path_end(t, i),
        is_path_end(t, k),
    ensures
        i == k,
{
    if i < k {
        assert(t[i] == '?');
    } else if k < i {
        assert(t[k] == '?');
    }
}

/// The path of `t` ends at `i`.
pub(crate) proof fn lemma_path_of(t: Seq<char>, i: int)
    requires
        is_path_end(t, i),
    ensures
        path_of(t) == t.take(i),
{
    let k = choose|k: int| is_path_end(t, k);
    lemma_path_end_unique(t, i, k);
}

/// Where the path of a target ends.
fn find_path_end(t: &Vec<char>) -> (r: usize)
    ensures
        is_path_end(t@, r as int),
{
    let mut i: usize = 0;
    while i < t.len()
        invariant
            i <= t@.len(),
            forall|j: int| 0 <= j < i ==> t@[j] != '?',
        decreases t@.len() - i,
    {
        if t[i] == '?' {
            return i;
        }
        i = i + 1;
    }
    i
}

/// Whether the first `n` characters of `t` are those of the ASCII text `lit`.
fn prefix_is(t: &Vec<char>, n: usize, lit: &str) -> (r: bool)
    requires
        n <= t@.len(),
        lit.is_ascii(),
    ensures
        r == (t@.take(n as int) == lit@),
{
    if n != lit.unicode_len() {
        return false;
    }
    let mut i: usize = 0;
    while i < n
        invariant
            n <= t@.len(),
            n == lit@.len(),
            i <= n,
            lit.is_ascii(),
            forall|j: int| 0 <= j < i ==> t@[j] == lit@[j],
        decreases n - i,
    {
        if t[i] != char_at(lit, i) {
            assert(t@.take(n as int)[i as int] != lit@[i as int]);
            return false;
        }
        i = i + 1;
    }
    assert(t@.take(n as int) =~= lit@);
    true
}

fn read_only_route(m: Method, r: Route) -> (out: Route)
    ensures
        out@ == read_only(m, r@),
{
    match m {
        Method::Get | Method::Head => r,
        Method::Other => Route::MethodNotAllowed,
    }
}

/// Chooses the handler for a request with method `method` and request
/// target `target` (path and optional query). The two pages and the greeting
/// match their paths exactly; everything at or below `/assets` goes to the
/// file server, which resolves the rest of the path below its root.
pub fn route(method: Method, target: &str) -> (r: Route)
    ensures
        r@ == route_view(method, target@),
{
    let t = chars_of(target);
    let end = find_path_end(&t);
    proof {
        lemma_path_of(target@, end as int);
    }
    let home = "/";
    let learn = "/learn";
    let hello = "/api/hello";
    let mount = "/assets";
    proof {
        reveal_strlit("/");
        reveal_strlit("/learn");
        reveal_strlit("/api/hello");
        reveal_strlit("/assets");
    }
    if prefix_is(&t, end, home) {
        return read_only_route(method, Route::Page(Page::Home));
    }
    if prefix_is(&t, end, learn) {
        return read_only_route(method, Route::Page(Page::LearnMore));
    }
    if prefix_is(&t, end, hello) {
        return read_only_route(method, Route::Hello);
    }
    if end < 7 {
        return Route::NotFound;
    }
    assert(t@.take(end as int).take(7) =~= t@.take(7));
    if !prefix_is(&t, 7, mount) {
        return Route::NotFound;
    }
    if end > 7 && t[7] != '/' {
        return Route::NotFound;
    }
    let rest = if end == 7 {
        let s = "/";
        proof {
            reveal_strlit("/");
        }
        s.to_owned()
    } else {
        target.substring_char(7, end).to_owned()
    };
    assert(rest@ =~= asset_rest(path_of(target@)));
    read_only_route(method, Route::Asset(rest))
}

} // verus!
