//! The two expansions: the attribute that wraps an enumeration, and the
//! derive that writes its route functions.
use vstd::prelude::*;
use vstd::string::*;

use crate::emit::{
    all_routed, method_arms, push_method_arms, push_route_calls, push_url_arms, registrations,
    route_at, route_calls, routes_of, url_arms,
};
use crate::model::{
    RouteVariant, Schema, VariantDecl, folder, folder_of, last_carrying, last_pair,
    last_with_attr, lemma_last_carrying_in_range, missing_route_message, state_generic, state_of,
};
use crate::naming::{pascal_to_camel, snake_of};
use crate::text::{literal, push_literal, push_text};

verus! {

/// The `impl` block with `url()`, `method()` and `router()`.
pub open spec fn impl_text(e: Seq<char>, state: Seq<char>, vs: Seq<VariantDecl>) -> Seq<char> {
    "impl "@ + e + " {\nfn url(&self) -> String {\nmatch self {\n"@ + url_arms(e, vs, vs.len())
        + "}\n}\n#[allow(unused)]\nfn method(&self) -> String {\nmatch self {\n"@
        + method_arms(e, vs, vs.len()) + "}\n}\nfn router() -> ::axum::Router<"@ + state
        + "> {\nuse ::axum::routing::{get, post, patch, put, delete};\n::axum::Router::new()"@
        + route_calls(registrations(vs), vs.len()) + "\n}\n}\n"@
}

/// The `Display` impl, which writes the URL.
pub open spec fn display_text(e: Seq<char>) -> Seq<char> {
    "impl std::fmt::Display for "@ + e
        + " {\nfn fmt(&self, f: &mut std::fmt::Formatter<'_>) -> std::fmt::Result {\nf.write_fmt(format_args!(\"{}\", self.url()))\n}\n}\n"@
}

/// The handler that serves embedded assets for variant `v` from `folder`,
/// and the declaration of the asset bundle.
pub open spec fn asset_handler_text(v: Seq<char>, folder: Seq<char>) -> Seq<char> {
    "async fn "@ + snake_of(v)
        + "(uri: axum::http::Uri) -> impl axum::response::IntoResponse {\nmatch "@ + v
        + "::get(uri.path()) {\nSome((content_type, bytes)) => (\naxum::http::StatusCode::OK,\n[(axum::http::header::CONTENT_TYPE, content_type)],\nbytes,\n),\nNone => (\naxum::http::StatusCode::NOT_FOUND,\n[(axum::http::header::CONTENT_TYPE, \"text/html; charset=utf-8\")],\n\"not found\".as_bytes(),\n),\n}\n}\n#[derive(static_files::StaticFiles)]\n#[folder("@
        + literal(folder) + ")]\nstruct "@ + v + ";\n"@
}

/// The asset part of the expansion: one handler for the last variant marked
/// `embed`, nothing where no variant is.
pub open spec fn assets_text(vs: Seq<VariantDecl>) -> Seq<char> {
    match last_carrying(vs, "embed"@) {
        Some(i) => asset_handler_text(vs[i].name@, folder_of(vs)),
        None => Seq::empty(),
    }
}

/// The whole expansion of a schema whose variants all have a route.
pub open spec fn expansion(s: Schema) -> Seq<char> {
    impl_text(s.name@, state_of(s.state@), s.variants@) + display_text(s.name@) + assets_text(
        s.variants@,
    )
}

/// The route of every variant, or the error of the first one without.
pub fn collect_routes(vs: &Vec<VariantDecl>) -> (r: Result<Vec<RouteVariant>, String>)
    ensures
        all_routed(vs@) ==> r is Ok && routes_of(vs@, r->Ok_0@),
        !all_routed(vs@) ==> r is Err && r->Err_0@ == missing_route_message(),
{
    let mut routes: Vec<RouteVariant> = Vec::new();
    let mut i: usize = 0;
    while i < vs.len()
        invariant
            i <= vs@.len(),
            routes@.len() == i,
            forall|j: int| 0 <= j < i ==> (#[trigger] last_pair(vs@[j].attrs@)) is Some,
            forall|j: int|
                0 <= j < i ==> (#[trigger] routes@[j]).method@ == route_at(vs@, j).0
                    && routes@[j].path@ == route_at(vs@, j).1,
        decreases vs@.len() - i,
    {
        match RouteVariant::from_variant(&vs[i]) {
            Ok(route) => {
                routes.push(route);
            },
            Err(e) => {
                assert(last_pair(vs@[i as int].attrs@) is None);
                return Err(e);
            },
        }
        i = i + 1;
    }
    Ok(routes)
}

/// Writes the route functions of an enumeration: `url()`, `method()`,
/// `router()`, a `Display` impl that writes the URL, and the asset handler
/// where a variant is marked `embed`. Fails, producing nothing, where a
/// variant has no route annotation.
pub fn routes_macro(s: &Schema) -> (r: Result<String, String>)
    ensures
        all_routed(s.variants@) ==> r is Ok && r->Ok_0@ == expansion(*s),
        !all_routed(s.variants@) ==> r is Err && r->Err_0@ == missing_route_message(),
        r is Err ==> r->Err_0@.len() > 0,
{
    proof {
        reveal_strlit("should be #[get], #[post], #[put], #[delete], #[state], #[embed] or #[folder]");
    }
    let routes = match collect_routes(&s.variants) {
        Ok(routes) => routes,
        Err(e) => {
            return Err(e);
        },
    };
    let mut out = String::new();
    push_impl(&mut out, s, &routes);
    push_display(&mut out, s.name.as_str());
    push_assets(&mut out, &s.variants);
    assert(out@ =~= expansion(*s));
    Ok(out)
}

fn push_impl(out: &mut String, s: &Schema, routes: &Vec<RouteVariant>)
    requires
        routes_of(s.variants@, routes@),
    ensures
        final(out)@ == old(out)@ + impl_text(s.name@, state_of(s.state@), s.variants@),
{
    let ghost start = out@;
    let e = s.name.as_str();
    let vs = &s.variants;
    let state = state_generic(&s.state);
    push_text(out, "impl ");
    push_text(out, e);
    push_text(out, " {\nfn url(&self) -> String {\nmatch self {\n");
    push_url_arms(out, e, vs, routes);
    push_text(out, "}\n}\n#[allow(unused)]\nfn method(&self) -> String {\nmatch self {\n");
    push_method_arms(out, e, vs, routes);
    push_text(out, "}\n}\nfn router() -> ::axum::Router<");
    push_text(out, state.as_str());
    push_text(
        out,
        "> {\nuse ::axum::routing::{get, post, patch, put, delete};\n::axum::Router::new()",
    );
    push_route_calls(out, vs, routes);
    push_text(out, "\n}\n}\n");
    assert(out@ =~= start + impl_text(e@, state_of(s.state@), vs@));
}

fn push_display(out: &mut String, e: &str)
    ensures
        final(out)@ == old(out)@ + display_text(e@),
{
    let ghost start = out@;
    push_text(out, "impl std::fmt::Display for ");
    push_text(out, e);
    push_text(
        out,
        " {\nfn fmt(&self, f: &mut std::fmt::Formatter<'_>) -> std::fmt::Result {\nf.write_fmt(format_args!(\"{}\", self.url()))\n}\n}\n",
    );
    assert(out@ =~= start + display_text(e@));
}

fn push_assets(out: &mut String, vs: &Vec<VariantDecl>)
    ensures
        final(out)@ == old(out)@ + assets_text(vs@),
{
    let ghost start = out@;
    match last_with_attr(vs, "embed") {
        Some(i) => {
            let name = vs[i].name.as_str();
            let handler = pascal_to_camel(name);
            let dir = folder(vs);
            push_text(out, "async fn ");
            push_text(out, handler.as_str());
            push_text(out, "(uri: axum::http::Uri) -> impl axum::response::IntoResponse {\nmatch ");
            push_text(out, name);
            push_text(
                out,
                "::get(uri.path()) {\nSome((content_type, bytes)) => (\naxum::http::StatusCode::OK,\n[(axum::http::header::CONTENT_TYPE, content_type)],\nbytes,\n),\nNone => (\naxum::http::StatusCode::NOT_FOUND,\n[(axum::http::header::CONTENT_TYPE, \"text/html; charset=utf-8\")],\n\"not found\".as_bytes(),\n),\n}\n}\n#[derive(static_files::StaticFiles)]\n#[folder(",
            );
            push_literal(out, dir.as_str());
            push_text(out, ")]\nstruct ");
            push_text(out, name);
            push_text(out, ";\n");
            assert(out@ =~= start + asset_handler_text(name@, folder_of(vs@)));
        },
        None => {
            assert(out@ =~= start + Seq::<char>::empty());
        },
    }
}

/// The expansion of the `router` attribute: the enumeration, preceded by the
/// derive and by a `state` annotation with the given type, the unit type
/// where none is given.
pub open spec fn router_expansion(state: Option<Seq<char>>, item: Seq<char>) -> Seq<char> {
    "#[derive(router::Routes)]\n#[state("@ + match state {
        Some(t) => t,
        None => "()"@,
    } + ")]\n"@ + item
}

/// Wraps an enumeration's source text for the `Routes` derive.
pub fn router_macro(state: Option<&str>, item: &str) -> (r: String)
    ensures
        r@ == router_expansion(
            match state {
                Some(t) => Some(t@),
                None => None,
            },
            item@,
        ),
{
    let mut out = String::new();
    push_text(&mut out, "#[derive(router::Routes)]\n#[state(");
    match state {
        Some(t) => push_text(&mut out, t),
        None => push_text(&mut out, "()"),
    }
    push_text(&mut out, ")]\n");
    push_text(&mut out, item);
    out
}

/// At most one asset handler is written, however many variants carry `embed`
/// or `folder`: the asset part is empty or the handler of one variant.
pub proof fn lemma_one_asset_handler(vs: Seq<VariantDecl>)
    ensures
        assets_text(vs) == Seq::<char>::empty() || exists|i: int|
            0 <= i < vs.len() && assets_text(vs) == asset_handler_text(
                (#[trigger] vs[i]).name@,
                folder_of(vs),
            ),
{
    lemma_last_carrying_in_range(vs, "embed"@);
}

} // verus!
