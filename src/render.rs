//! What the generated `url()` returns, given the rendered field values.
use vstd::prelude::*;
use vstd::string::*;

use crate::model::{Fields, RouteVariant, VariantDecl};
use crate::template::{placeholder_template, query_format, query_template, url_format};
use crate::text::{push_char, push_text};

verus! {

/// Whether `t` starts, at `i`, with the marker `{}`.
pub open spec fn display_marker_at(t: Seq<char>, i: int) -> bool {
    i + 2 <= t.len() && t[i] == '{' && t[i + 1] == '}'
}

/// Whether `t` starts, at `i`, with the marker `{:?}`.
pub open spec fn debug_marker_at(t: Seq<char>, i: int) -> bool {
    i + 4 <= t.len() && t[i] == '{' && t[i + 1] == ':' && t[i + 2] == '?' && t[i + 3] == '}'
}

/// The first value of `vals`, empty where there is none.
pub open spec fn first_value(vals: Seq<String>) -> Seq<char> {
    if vals.len() > 0 {
        vals[0]@
    } else {
        Seq::empty()
    }
}

/// The values after the first one.
pub open spec fn later_values(vals: Seq<String>) -> Seq<String> {
    if vals.len() > 0 {
        vals.drop_first()
    } else {
        vals
    }
}

/// A format template filled in: each `{}` or `{:?}` marker, left to right,
/// takes the next value; every other character stands as it is. This is what
/// `format!` yields where the template has one marker per value and no other
/// braces. Outside that case the two part: here a marker without a value gets
/// empty text, values beyond the markers are dropped, and `{{` or `}}` stand
/// as two characters, where the generated `format!` does not compile or reads
/// them as escaped braces.
pub open spec fn fill(t: Seq<char>, vals: Seq<String>) -> Seq<char>
    decreases t.len(),
{
    if t.len() == 0 {
        Seq::empty()
    } else if display_marker_at(t, 0) {
        first_value(vals) + fill(t.skip(2), later_values(vals))
    } else if debug_marker_at(t, 0) {
        first_value(vals) + fill(t.skip(4), later_values(vals))
    } else {
        seq![t[0]] + fill(t.skip(1), vals)
    }
}

/// The URL of a variant with the given method and path, where `vals` are its
/// field values rendered as the generated code renders them (`Display` for
/// positional fields, `Debug` for named ones), in declaration order.
pub open spec fn url_of(f: Fields, path: Seq<char>, vals: Seq<String>) -> Seq<char> {
    match f {
        Fields::Unit => path,
        Fields::Unnamed(_) => fill(placeholder_template(path), vals),
        Fields::Named(ns) => fill(query_template(path, ns@), vals),
    }
}

fn fill_from(t: &str, i: usize, vals: &Vec<String>, j: usize) -> (r: String)
    requires
        i <= t@.len(),
        j <= vals@.len(),
    ensures
        r@ == fill(t@.skip(i as int), vals@.skip(j as int)),
    decreases t@.len() - i,
{
    let n = t.unicode_len();
    let ghost rest = t@.skip(i as int);
    let ghost vs = vals@.skip(j as int);
    if i == n {
        assert(rest.len() == 0);
        return String::new();
    }
    let c0 = t.get_char(i);
    let mut marker: usize = 0;
    if c0 == '{' {
        if n - i >= 2 && t.get_char(i + 1) == '}' {
            marker = 2;
        } else if n - i >= 4 && t.get_char(i + 1) == ':' && t.get_char(i + 2) == '?'
            && t.get_char(i + 3) == '}' {
            marker = 4;
        }
    }
    let mut out = String::new();
    if marker > 0 {
        let k = if j < vals.len() {
            push_text(&mut out, vals[j].as_str());
            j + 1
        } else {
            j
        };
        let tail = fill_from(t, i + marker, vals, k);
        push_text(&mut out, tail.as_str());
        assert(rest.skip(marker as int) =~= t@.skip(i + marker));
        assert(later_values(vs) =~= vals@.skip(k as int));
        if marker == 2 {
            assert(display_marker_at(rest, 0));
        } else {
            assert(!display_marker_at(rest, 0));
            assert(debug_marker_at(rest, 0));
        }
        assert(out@ =~= fill(rest, vs));
    } else {
        push_char(&mut out, c0);
        let tail = fill_from(t, i + 1, vals, j);
        push_text(&mut out, tail.as_str());
        assert(rest.skip(1) =~= t@.skip(i + 1));
        assert(!display_marker_at(rest, 0));
        assert(!debug_marker_at(rest, 0));
        assert(out@ =~= fill(rest, vs));
    }
    out
}

/// The URL that the generated `url()` returns for variant `v` routed by
/// `route`, given its field values rendered as text. It matches the generated
/// code where there is one value per placeholder (positional fields) or per
/// field (named fields) and the path holds no braces; see `fill`.
pub fn render_url(v: &VariantDecl, route: &RouteVariant, vals: &Vec<String>) -> (r: String)
    ensures
        r@ == url_of(v.fields, route.path@, vals@),
{
    let path = route.path.as_str();
    let t = match &v.fields {
        Fields::Unit => {
            return route.path.clone();
        },
        Fields::Unnamed(_) => url_format(path),
        Fields::Named(ns) => query_format(path, ns),
    };
    let r = fill_from(t.as_str(), 0, vals, 0);
    assert(t@.skip(0) =~= t@);
    assert(vals@.skip(0) =~= vals@);
    r
}

/// A variant without fields renders as its path, unchanged, whatever values
/// are given.
pub proof fn lemma_unit_url_is_path(path: Seq<char>, vals: Seq<String>)
    ensures
        url_of(Fields::Unit, path, vals) == path,
{
}

} // verus!
