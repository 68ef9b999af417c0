//! The text of the code generated for a route enumeration.
use vstd::prelude::*;
use vstd::string::*;

use crate::model::{Fields, RouteVariant, VariantDecl, last_pair};
use crate::naming::{pascal_to_camel, snake_of};
use crate::template::{placeholder_template, query_format, query_template, url_format};
use crate::text::{decimal, literal, push_decimal, push_literal, push_text};

verus! {

/// The bindings `x0, x1, ...` of the first `n` positional fields, each
/// followed by `, `.
pub open spec fn positional_bindings(n: nat) -> Seq<char>
    decreases n,
{
    if n == 0 {
        Seq::empty()
    } else {
        positional_bindings((n - 1) as nat) + "x"@ + decimal((n - 1) as nat) + ", "@
    }
}

/// The first `k` field names, each followed by `, `.
pub open spec fn named_bindings(names: Seq<String>, k: nat) -> Seq<char>
    decreases k,
{
    if k == 0 {
        Seq::empty()
    } else {
        named_bindings(names, (k - 1) as nat) + names[k - 1]@ + ", "@
    }
}

/// The match pattern of a variant: the bare variant, the variant with
/// `x0, x1, ...` bound to its positional fields, or the variant with its
/// named fields bound by shorthand.
pub open spec fn pattern(e: Seq<char>, v: Seq<char>, f: Fields) -> Seq<char> {
    match f {
        Fields::Unit => e + "::"@ + v,
        Fields::Unnamed(n) => e + "::"@ + v + "("@ + positional_bindings(n as nat) + ")"@,
        Fields::Named(ns) => e + "::"@ + v + " { "@ + named_bindings(ns@, ns@.len()) + "}"@,
    }
}

/// The expression that renders the URL of a variant: the path itself, the
/// path template filled with the positional fields, or the path followed by
/// the query of the named fields.
pub open spec fn url_expr(f: Fields, path: Seq<char>) -> Seq<char> {
    match f {
        Fields::Unit => literal(path) + ".to_owned()"@,
        Fields::Unnamed(n) => "format!("@ + literal(placeholder_template(path)) + ", "@
            + positional_bindings(n as nat) + ")"@,
        Fields::Named(ns) => "format!("@ + literal(query_template(path, ns@)) + ", "@
            + named_bindings(ns@, ns@.len()) + ")"@,
    }
}

fn push_positional(out: &mut String, n: usize)
    ensures
        final(out)@ == old(out)@ + positional_bindings(n as nat),
{
    let ghost start = out@;
    let mut k: usize = 0;
    assert(out@ =~= start + positional_bindings(0));
    while k < n
        invariant
            k <= n,
            out@ == start + positional_bindings(k as nat),
        decreases n - k,
    {
        push_text(out, "x");
        push_decimal(out, k);
        push_text(out, ", ");
        assert(out@ =~= start + positional_bindings((k + 1) as nat));
        k = k + 1;
    }
}

fn push_named(out: &mut String, names: &Vec<String>)
    ensures
        final(out)@ == old(out)@ + named_bindings(names@, names@.len()),
{
    let ghost start = out@;
    let mut k: usize = 0;
    assert(out@ =~= start + named_bindings(names@, 0));
    while k < names.len()
        invariant
            k <= names@.len(),
            out@ == start + named_bindings(names@, k as nat),
        decreases names@.len() - k,
    {
        push_text(out, names[k].as_str());
        push_text(out, ", ");
        assert(out@ =~= start + named_bindings(names@, (k + 1) as nat));
        k = k + 1;
    }
}

/// Appends the match pattern of variant `v` of enumeration `e`.
pub fn push_pattern(out: &mut String, e: &str, v: &str, f: &Fields)
    ensures
        final(out)@ == old(out)@ + pattern(e@, v@, *f),
{
    let ghost start = out@;
    push_text(out, e);
    push_text(out, "::");
    push_text(out, v);
    match f {
        Fields::Unit => {},
        Fields::Unnamed(n) => {
            push_text(out, "(");
            push_positional(out, *n);
            push_text(out, ")");
        },
        Fields::Named(ns) => {
            push_text(out, " { ");
            push_named(out, ns);
            push_text(out, "}");
        },
    }
    assert(out@ =~= start + pattern(e@, v@, *f));
}

/// Appends the expression that renders the URL of a variant.
pub fn push_url_expr(out: &mut String, f: &Fields, path: &str)
    ensures
        final(out)@ == old(out)@ + url_expr(*f, path@),
{
    let ghost start = out@;
    match f {
        Fields::Unit => {
            push_literal(out, path);
            push_text(out, ".to_owned()");
        },
        Fields::Unnamed(n) => {
            let t = url_format(path);
            push_text(out, "format!(");
            push_literal(out, t.as_str());
            push_text(out, ", ");
            push_positional(out, *n);
            push_text(out, ")");
        },
        Fields::Named(ns) => {
            let t = query_format(path, ns);
            push_text(out, "format!(");
            push_literal(out, t.as_str());
            push_text(out, ", ");
            push_named(out, ns);
            push_text(out, ")");
        },
    }
    assert(out@ =~= start + url_expr(*f, path@));
}

/// The method and path of variant `i`, where its annotations give them.
pub open spec fn route_at(vs: Seq<VariantDecl>, i: int) -> (Seq<char>, Seq<char>) {
    last_pair(vs[i].attrs@)->Some_0
}

/// Whether every variant's annotations give a method and a path.
pub open spec fn all_routed(vs: Seq<VariantDecl>) -> bool {
    forall|i: int| 0 <= i < vs.len() ==> (#[trigger] last_pair(vs[i].attrs@)) is Some
}

/// Whether `routes` holds, in order, the method and path of each variant.
pub open spec fn routes_of(vs: Seq<VariantDecl>, routes: Seq<RouteVariant>) -> bool {
    &&& routes.len() == vs.len()
    &&& forall|i: int|
        0 <= i < vs.len() ==> (#[trigger] routes[i]).method@ == route_at(vs, i).0
            && routes[i].path@ == route_at(vs, i).1
}

/// The arm of `url()` for one variant.
pub open spec fn url_arm(e: Seq<char>, v: VariantDecl, r: (Seq<char>, Seq<char>)) -> Seq<char> {
    pattern(e, v.name@, v.fields) + " => "@ + url_expr(v.fields, r.1) + ",\n"@
}

/// The arm of `method()` for one variant.
pub open spec fn method_arm(e: Seq<char>, v: VariantDecl, r: (Seq<char>, Seq<char>)) -> Seq<char> {
    pattern(e, v.name@, v.fields) + " => "@ + literal(r.0) + ".to_owned(),\n"@
}

/// The arms of `url()` for the first `k` variants.
pub open spec fn url_arms(e: Seq<char>, vs: Seq<VariantDecl>, k: nat) -> Seq<char>
    decreases k,
{
    if k == 0 {
        Seq::empty()
    } else {
        url_arms(e, vs, (k - 1) as nat) + url_arm(e, vs[k - 1], route_at(vs, k - 1))
    }
}

/// The arms of `method()` for the first `k` variants.
pub open spec fn method_arms(e: Seq<char>, vs: Seq<VariantDecl>, k: nat) -> Seq<char>
    decreases k,
{
    if k == 0 {
        Seq::empty()
    } else {
        method_arms(e, vs, (k - 1) as nat) + method_arm(e, vs[k - 1], route_at(vs, k - 1))
    }
}

/// One entry of the route table: path template, method, handler name.
pub open spec fn registration(vs: Seq<VariantDecl>, i: int) -> (Seq<char>, Seq<char>, Seq<char>) {
    (route_at(vs, i).1, route_at(vs, i).0, snake_of(vs[i].name@))
}

/// The route table: one entry per variant, in declaration order.
pub open spec fn registrations(vs: Seq<VariantDecl>) -> Seq<(Seq<char>, Seq<char>, Seq<char>)> {
    Seq::new(vs.len(), |i: int| registration(vs, i))
}

/// The call that adds one entry to the route table.
pub open spec fn registration_text(r: (Seq<char>, Seq<char>, Seq<char>)) -> Seq<char> {
    ".route("@ + literal(r.0) + ", "@ + r.1 + "("@ + r.2 + "))"@
}

/// The calls that add the first `k` entries of `regs`.
pub open spec fn route_calls(regs: Seq<(Seq<char>, Seq<char>, Seq<char>)>, k: nat) -> Seq<char>
    decreases k,
{
    if k == 0 {
        Seq::empty()
    } else {
        route_calls(regs, (k - 1) as nat) + registration_text(regs[k - 1])
    }
}

pub fn push_url_arms(out: &mut String, e: &str, vs: &Vec<VariantDecl>, routes: &Vec<RouteVariant>)
    requires
        routes_of(vs@, routes@),
    ensures
        final(out)@ == old(out)@ + url_arms(e@, vs@, vs@.len()),
{
    let ghost start = out@;
    let mut k: usize = 0;
    assert(out@ =~= start + url_arms(e@, vs@, 0));
    while k < vs.len()
        invariant
            k <= vs@.len(),
            routes_of(vs@, routes@),
            out@ == start + url_arms(e@, vs@, k as nat),
        decreases vs@.len() - k,
    {
        let v = &vs[k];
        push_pattern(out, e, v.name.as_str(), &v.fields);
        push_text(out, " => ");
        push_url_expr(out, &v.fields, routes[k].path.as_str());
        push_text(out, ",\n");
        assert(out@ =~= start + url_arms(e@, vs@, (k + 1) as nat));
        k = k + 1;
    }
}

pub fn push_method_arms(out: &mut String, e: &str, vs: &Vec<VariantDecl>, routes: &Vec<RouteVariant>)
    requires
        routes_of(vs@, routes@),
    ensures
        final(out)@ == old(out)@ + method_arms(e@, vs@, vs@.len()),
{
    let ghost start = out@;
    let mut k: usize = 0;
    assert(out@ =~= start + method_arms(e@, vs@, 0));
    while k < vs.len()
        invariant
            k <= vs@.len(),
            routes_of(vs@, routes@),
            out@ == start + method_arms(e@, vs@, k as nat),
        decreases vs@.len() - k,
    {
        let v = &vs[k];
        push_pattern(out, e, v.name.as_str(), &v.fields);
        push_text(out, " => ");
        push_literal(out, routes[k].method.as_str());
        push_text(out, ".to_owned(),\n");
        assert(out@ =~= start + method_arms(e@, vs@, (k + 1) as nat));
        k = k + 1;
    }
}

pub fn push_route_calls(out: &mut String, vs: &Vec<VariantDecl>, routes: &Vec<RouteVariant>)
    requires
        routes_of(vs@, routes@),
    ensures
        final(out)@ == old(out)@ + route_calls(registrations(vs@), vs@.len()),
{
    let ghost start = out@;
    let ghost regs = registrations(vs@);
    let mut k: usize = 0;
    assert(out@ =~= start + route_calls(regs, 0));
    while k < vs.len()
        invariant
            k <= vs@.len(),
            routes_of(vs@, routes@),
            regs == registrations(vs@),
            out@ == start + route_calls(regs, k as nat),
        decreases vs@.len() - k,
    {
        let handler = pascal_to_camel(vs[k].name.as_str());
        push_text(out, ".route(");
        push_literal(out, routes[k].path.as_str());
        push_text(out, ", ");
        push_text(out, routes[k].method.as_str());
        push_text(out, "(");
        push_text(out, handler.as_str());
        push_text(out, "))");
        assert(regs[k as int] == registration(vs@, k as int));
        assert(out@ =~= start + route_calls(regs, (k + 1) as nat));
        k = k + 1;
    }
}

/// The route table has one entry per variant, in declaration order, each
/// holding that variant's path and method and the snake-case handler name.
pub proof fn lemma_route_table_order(vs: Seq<VariantDecl>)
    ensures
        registrations(vs).len() == vs.len(),
        forall|i: int|
            0 <= i < vs.len() ==> #[trigger] registrations(vs)[i] == (
                route_at(vs, i).1,
                route_at(vs, i).0,
                snake_of(vs[i].name@),
            ),
        forall|k: nat|
            0 < k <= vs.len() ==> #[trigger] route_calls(registrations(vs), k) == route_calls(
                registrations(vs),
                (k - 1) as nat,
            ) + registration_text(registration(vs, k - 1)),
{
}

} // verus!
