use router_macros::expand::{router_macro, routes_macro};
use router_macros::model::{
    folder, state_generic, Attr, Fields, RouteVariant, Schema, StateArg, VariantDecl,
};
use router_macros::naming::pascal_to_camel;
use router_macros::render::render_url;
use router_macros::template::{query_format, url_format};
use router_macros::text::{push_decimal, push_literal};

fn attr(ident: &str, lit: Option<&str>) -> Attr {
    Attr {
        ident: Some(ident.to_string()),
        lit: lit.map(|s| s.to_string()),
    }
}

fn variant(name: &str, attrs: Vec<Attr>, fields: Fields) -> VariantDecl {
    VariantDecl {
        name: name.to_string(),
        attrs,
        fields,
    }
}

fn route(method: &str, path: &str) -> RouteVariant {
    RouteVariant {
        method: method.to_string(),
        path: path.to_string(),
    }
}

fn strings(v: &[&str]) -> Vec<String> {
    v.iter().map(|s| s.to_string()).collect()
}

#[test]
fn snake_case_of_pascal_names() {
    assert_eq!(pascal_to_camel("GetAllUsers"), "get_all_users");
    assert_eq!(pascal_to_camel("GetUser"), "get_user");
    assert_eq!(pascal_to_camel("Health"), "health");
    assert_eq!(pascal_to_camel("A"), "a");
    assert_eq!(pascal_to_camel(""), "");
}

#[test]
fn snake_case_keeps_capital_runs_apart() {
    assert_eq!(pascal_to_camel("HTTPServer"), "h_t_t_p_server");
}

#[test]
fn snake_case_of_lowercase_is_unchanged() {
    assert_eq!(pascal_to_camel("health"), "health");
    let once = pascal_to_camel("get_all_users");
    assert_eq!(once, "get_all_users");
    assert_eq!(pascal_to_camel(&once), once);
}

#[test]
fn snake_case_lowers_non_ascii_capitals() {
    assert_eq!(pascal_to_camel("XÀ"), "x_à");
    assert_eq!(pascal_to_camel("Été"), "été");
    assert_eq!(pascal_to_camel("ÉtéÀ"), "été_à");
}

#[test]
fn positional_template_replaces_placeholders() {
    assert_eq!(url_format("/items/:id"), "/items/{}");
    assert_eq!(url_format("/a/:x/b/:y"), "/a/{}/b/{}");
    assert_eq!(url_format("/a:b/c"), "/a:b/c");
    assert_eq!(url_format(":x"), "{}");
    assert_eq!(url_format(""), "");
}

#[test]
fn named_template_appends_query() {
    assert_eq!(
        query_format("/search", &strings(&["a", "b"])),
        "/search?a={:?}&b={:?}"
    );
    assert_eq!(query_format("/q", &strings(&["only"])), "/q?only={:?}");
    assert_eq!(query_format("/q", &Vec::new()), "/q?");
}

#[test]
fn unit_url_is_the_path() {
    let v = variant("Health", vec![attr("get", Some("/health"))], Fields::Unit);
    let r = route("get", "/health");
    assert_eq!(render_url(&v, &r, &Vec::new()), "/health");
    assert_eq!(render_url(&v, &r, &strings(&["x"])), "/health");
}

#[test]
fn positional_url_fills_placeholder() {
    let v = variant("Item", vec![attr("get", Some("/items/:id"))], Fields::Unnamed(1));
    let r = route("get", "/items/:id");
    assert_eq!(render_url(&v, &r, &strings(&[&format!("{}", 42)])), "/items/42");
}

#[test]
fn positional_url_fills_in_order() {
    let v = variant("Pair", vec![], Fields::Unnamed(2));
    let r = route("get", "/a/:x/b/:y");
    assert_eq!(render_url(&v, &r, &strings(&["1", "2"])), "/a/1/b/2");
}

#[test]
fn named_url_uses_query_string() {
    let v = variant(
        "Search",
        vec![attr("get", Some("/search"))],
        Fields::Named(strings(&["a", "b"])),
    );
    let r = route("get", "/search");
    let vals = vec![format!("{:?}", "x"), format!("{:?}", 2)];
    assert_eq!(render_url(&v, &r, &vals), "/search?a=\"x\"&b=2");
}

#[test]
fn route_from_method_annotation() {
    let v = variant("GetUser", vec![attr("get", Some("/users/:id"))], Fields::Unnamed(1));
    let r = RouteVariant::from_variant(&v).ok().unwrap();
    assert_eq!(r.method, "get");
    assert_eq!(r.path, "/users/:id");
}

#[test]
fn route_takes_last_annotation() {
    let v = variant(
        "Update",
        vec![attr("post", Some("/a")), attr("put", Some("/b"))],
        Fields::Unit,
    );
    let r = RouteVariant::from_variant(&v).ok().unwrap();
    assert_eq!(r.method, "put");
    assert_eq!(r.path, "/b");
}

#[test]
fn route_skips_folder_annotation() {
    let v = variant(
        "Remove",
        vec![attr("delete", Some("/x")), attr("folder", Some("assets"))],
        Fields::Unit,
    );
    let r = RouteVariant::from_variant(&v).ok().unwrap();
    assert_eq!(r.method, "delete");
    assert_eq!(r.path, "/x");
}

#[test]
fn route_of_embed_marker_is_catch_all() {
    let v = variant(
        "Assets",
        vec![attr("embed", None), attr("folder", Some("public"))],
        Fields::Unit,
    );
    let r = RouteVariant::from_variant(&v).ok().unwrap();
    assert_eq!(r.method, "get");
    assert_eq!(r.path, "/*file");
}

#[test]
fn route_ignores_path_annotations() {
    let v = variant(
        "Patch",
        vec![
            attr("patch", Some("/p")),
            Attr {
                ident: None,
                lit: Some("/q".to_string()),
            },
        ],
        Fields::Unit,
    );
    let r = RouteVariant::from_variant(&v).ok().unwrap();
    assert_eq!(r.method, "patch");
    assert_eq!(r.path, "/p");
}

#[test]
fn route_missing_is_an_error() {
    let v = variant("Nothing", vec![], Fields::Unit);
    let e = RouteVariant::from_variant(&v).err().unwrap();
    assert_eq!(
        e,
        "should be #[get], #[post], #[put], #[delete], #[state], #[embed] or #[folder]"
    );
}

#[test]
fn state_type_selection() {
    assert_eq!(state_generic(&vec![]), "()");
    assert_eq!(state_generic(&vec![StateArg::Type("AppState".to_string())]), "AppState");
    assert_eq!(
        state_generic(&vec![StateArg::Type("A".to_string()), StateArg::Malformed]),
        "A"
    );
    assert_eq!(
        state_generic(&vec![StateArg::Type("A".to_string()), StateArg::Empty]),
        ""
    );
    assert_eq!(state_generic(&vec![StateArg::Malformed]), "()");
}

#[test]
fn folder_defaults_to_static() {
    let vs = vec![variant("A", vec![attr("get", Some("/"))], Fields::Unit)];
    assert_eq!(folder(&vs), "static");
    let vs = vec![variant("A", vec![attr("embed", None), attr("folder", None)], Fields::Unit)];
    assert_eq!(folder(&vs), "static");
}

#[test]
fn folder_last_variant_wins() {
    let vs = vec![
        variant("A", vec![attr("embed", None), attr("folder", Some("first"))], Fields::Unit),
        variant("B", vec![attr("get", Some("/b"))], Fields::Unit),
        variant("C", vec![attr("embed", None), attr("folder", Some("second"))], Fields::Unit),
    ];
    assert_eq!(folder(&vs), "second");
}

#[test]
fn folder_first_annotation_of_variant() {
    let vs = vec![variant(
        "A",
        vec![attr("folder", Some("one")), attr("folder", Some("two")), attr("embed", None)],
        Fields::Unit,
    )];
    assert_eq!(folder(&vs), "one");
}

#[test]
fn literal_escapes_quotes_and_backslashes() {
    let mut s = String::from("x=");
    push_literal(&mut s, "a\"b\\c");
    assert_eq!(s, "x=\"a\\\"b\\\\c\"");
    let mut s = String::new();
    push_literal(&mut s, "a\rb");
    assert_eq!(s, "\"a\\rb\"");
}

#[test]
fn decimal_numerals() {
    for (n, t) in [(0usize, "0"), (7, "7"), (42, "42"), (1234, "1234")] {
        let mut s = String::new();
        push_decimal(&mut s, n);
        assert_eq!(s, t);
    }
}

fn sample_schema() -> Schema {
    Schema {
        name: "Route".to_string(),
        state: vec![StateArg::Type("AppState".to_string())],
        variants: vec![
            variant("Health", vec![attr("get", Some("/health"))], Fields::Unit),
            variant("GetItem", vec![attr("get", Some("/items/:id"))], Fields::Unnamed(1)),
            variant(
                "Search",
                vec![attr("post", Some("/search"))],
                Fields::Named(strings(&["a", "b"])),
            ),
        ],
    }
}

#[test]
fn expansion_has_url_arms() {
    let out = routes_macro(&sample_schema()).ok().unwrap();
    assert!(out.contains("Route::Health => \"/health\".to_owned(),"));
    assert!(out.contains("Route::GetItem(x0, ) => format!(\"/items/{}\", x0, ),"));
    assert!(out.contains(
        "Route::Search { a, b, } => format!(\"/search?a={:?}&b={:?}\", a, b, ),"
    ));
}

#[test]
fn expansion_has_method_arms() {
    let out = routes_macro(&sample_schema()).ok().unwrap();
    assert!(out.contains("Route::Health => \"get\".to_owned(),"));
    assert!(out.contains("Route::GetItem(x0, ) => \"get\".to_owned(),"));
    assert!(out.contains("Route::Search { a, b, } => \"post\".to_owned(),"));
}

#[test]
fn expansion_registers_routes_in_order() {
    let out = routes_macro(&sample_schema()).ok().unwrap();
    assert!(out.contains(
        "::axum::Router::new().route(\"/health\", get(health)).route(\"/items/:id\", get(get_item)).route(\"/search\", post(search))\n"
    ));
    assert_eq!(out.matches(".route(").count(), 3);
    assert!(out.contains("fn router() -> ::axum::Router<AppState> {"));
    assert!(out.contains("impl std::fmt::Display for Route {"));
    assert!(!out.contains("async fn"));
}

#[test]
fn expansion_without_state_uses_unit() {
    let mut s = sample_schema();
    s.state = Vec::new();
    let out = routes_macro(&s).ok().unwrap();
    assert!(out.contains("fn router() -> ::axum::Router<()> {"));
}

#[test]
fn expansion_fails_on_variant_without_route() {
    let mut s = sample_schema();
    s.variants.push(variant("Orphan", vec![], Fields::Unit));
    let e = routes_macro(&s).err().unwrap();
    assert!(!e.is_empty());
}

#[test]
fn expansion_has_one_asset_handler() {
    let mut s = sample_schema();
    s.variants.push(variant(
        "Files",
        vec![attr("embed", None), attr("folder", Some("first"))],
        Fields::Unit,
    ));
    s.variants.push(variant(
        "Assets",
        vec![attr("embed", None), attr("folder", Some("public"))],
        Fields::Unit,
    ));
    let out = routes_macro(&s).ok().unwrap();
    assert_eq!(out.matches("async fn").count(), 1);
    assert!(out.contains("async fn assets(uri: axum::http::Uri)"));
    assert!(out.contains("#[folder(\"public\")]\nstruct Assets;"));
    assert!(out.contains(".route(\"/*file\", get(assets))"));
    assert!(out.contains("\"not found\".as_bytes()"));
}

#[test]
fn attribute_expansion_adds_derive_and_state() {
    assert_eq!(
        router_macro(Some("AppState"), "enum R { A }"),
        "#[derive(router::Routes)]\n#[state(AppState)]\nenum R { A }"
    );
    assert_eq!(
        router_macro(None, "enum R { A }"),
        "#[derive(router::Routes)]\n#[state(())]\nenum R { A }"
    );
}
