use axum_static_web_server::{route, Method, Page, Route};

fn asset_path(r: Route) -> Option<String> {
    match r {
        Route::Asset(p) => Some(p),
        _ => None,
    }
}

#[test]
fn root_renders_home_page() {
    assert!(matches!(route(Method::Get, "/"), Route::Page(Page::Home)));
    assert!(matches!(route(Method::Head, "/"), Route::Page(Page::Home)));
    assert!(matches!(route(Method::Get, "/?utm=1&x"), Route::Page(Page::Home)));
}

#[test]
fn learn_renders_learn_more_page() {
    assert!(matches!(route(Method::Get, "/learn"), Route::Page(Page::LearnMore)));
    assert!(matches!(route(Method::Get, "/learn?a=b"), Route::Page(Page::LearnMore)));
}

#[test]
fn page_paths_match_exactly() {
    assert!(matches!(route(Method::Get, "/learn/"), Route::NotFound));
    assert!(matches!(route(Method::Get, "/learnmore"), Route::NotFound));
    assert!(matches!(route(Method::Get, ""), Route::NotFound));
}

#[test]
fn hello_ignores_any_query() {
    assert!(matches!(route(Method::Get, "/api/hello"), Route::Hello));
    assert!(matches!(route(Method::Get, "/api/hello?"), Route::Hello));
    assert!(matches!(route(Method::Get, "/api/hello?name=x&y=%2F"), Route::Hello));
    assert!(matches!(route(Method::Get, "/api/hello/"), Route::NotFound));
    assert!(matches!(route(Method::Get, "/api"), Route::NotFound));
}

#[test]
fn other_methods_are_not_allowed_on_known_paths() {
    assert!(matches!(route(Method::Other, "/"), Route::MethodNotAllowed));
    assert!(matches!(route(Method::Other, "/learn"), Route::MethodNotAllowed));
    assert!(matches!(route(Method::Other, "/api/hello"), Route::MethodNotAllowed));
    assert!(matches!(route(Method::Other, "/assets/site.css"), Route::MethodNotAllowed));
    assert!(matches!(route(Method::Other, "/nowhere"), Route::NotFound));
}

#[test]
fn assets_are_forwarded_below_the_mount() {
    assert_eq!(asset_path(route(Method::Get, "/assets/site.css")), Some("/site.css".to_string()));
    assert_eq!(
        asset_path(route(Method::Head, "/assets/img/logo.png?v=3")),
        Some("/img/logo.png".to_string())
    );
    assert_eq!(asset_path(route(Method::Get, "/assets")), Some("/".to_string()));
    assert_eq!(asset_path(route(Method::Get, "/assets/")), Some("/".to_string()));
    assert_eq!(asset_path(route(Method::Get, "/assets/a/..b/c..")), Some("/a/..b/c..".to_string()));
    assert!(matches!(route(Method::Get, "/assetsx/site.css"), Route::NotFound));
}

#[test]
fn traversal_is_left_to_the_file_server() {
    assert_eq!(
        asset_path(route(Method::Get, "/assets/../../etc/passwd")),
        Some("/../../etc/passwd".to_string())
    );
    assert_eq!(asset_path(route(Method::Get, "/assets/%2e%2e/x")), Some("/%2e%2e/x".to_string()));
    assert!(matches!(route(Method::Other, "/assets/../x"), Route::MethodNotAllowed));
}

#[test]
fn unknown_paths_are_not_found() {
    assert!(matches!(route(Method::Get, "/does-not-exist"), Route::NotFound));
    assert!(matches!(route(Method::Get, "/api/goodbye"), Route::NotFound));
    assert!(matches!(route(Method::Get, "/assets\u{e9}/x"), Route::NotFound));
    assert!(matches!(route(Method::Get, "/caf\u{e9}"), Route::NotFound));
}

#[test]
fn non_ascii_targets_route_by_path() {
    assert!(matches!(route(Method::Get, "/?q=\u{e9}"), Route::Page(Page::Home)));
    assert!(matches!(route(Method::Get, "/learn?\u{e9}"), Route::Page(Page::LearnMore)));
    assert!(matches!(route(Method::Get, "/api/hello?\u{e9}\u{1f600}"), Route::Hello));
    assert_eq!(
        asset_path(route(Method::Get, "/assets/caf\u{e9}.css?v=\u{e9}")),
        Some("/caf\u{e9}.css".to_string())
    );
    assert_eq!(
        asset_path(route(Method::Head, "/assets/\u{65e5}\u{672c}/\u{1f600}.png")),
        Some("/\u{65e5}\u{672c}/\u{1f600}.png".to_string())
    );
}
