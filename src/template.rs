//! Format templates for the URL of a route.
use vstd::prelude::*;
use vstd::string::*;

use crate::text::{push_char, push_text};

verus! {

/// Whether the next character read after `p` starts a path segment.
pub open spec fn at_segment_start(p: Seq<char>) -> bool {
    p.len() == 0 || p.last() == '/'
}

/// Whether the last character of `p` lies in a placeholder segment, one that
/// begins with `:`.
pub open spec fn in_placeholder(p: Seq<char>) -> bool
    decreases p.len(),
{
    if p.len() == 0 {
        false
    } else {
        let q = p.drop_last();
        let c = p.last();
        if c == '/' {
            false
        } else if at_segment_start(q) && c == ':' {
            true
        } else {
            in_placeholder(q)
        }
    }
}

/// The path with every placeholder segment replaced by `{}`: literal segments
/// and the `/` between segments are kept as they are.
pub open spec fn placeholder_template(p: Seq<char>) -> Seq<char>
    decreases p.len(),
{
    if p.len() == 0 {
        Seq::empty()
    } else {
        let q = p.drop_last();
        let c = p.last();
        if c == '/' {
            placeholder_template(q).push('/')
        } else if at_segment_start(q) && c == ':' {
            placeholder_template(q) + seq!['{', '}']
        } else if in_placeholder(q) {
            placeholder_template(q)
        } else {
            placeholder_template(q).push(c)
        }
    }
}

/// The first `k` named fields as `name={:?}` pairs joined by `&`.
pub open spec fn query_part(names: Seq<String>, k: nat) -> Seq<char>
    decreases k,
{
    if k == 0 {
        Seq::empty()
    } else if k == 1 {
        names[0]@ + "={:?}"@
    } else {
        query_part(names, (k - 1) as nat) + "&"@ + names[k - 1]@ + "={:?}"@
    }
}

/// The path followed by `?` and the query of all named fields.
pub open spec fn query_template(p: Seq<char>, names: Seq<String>) -> Seq<char> {
    p + "?"@ + query_part(names, names.len())
}

/// The format template of a route with positional fields.
pub fn url_format(path: &str) -> (r: String)
    ensures
        r@ == placeholder_template(path@),
{
    let n = path.unicode_len();
    let mut out = String::new();
    let mut i: usize = 0;
    let mut start = true;
    let mut inside = false;
    while i < n
        invariant
            i <= n,
            n == path@.len(),
            out@ == placeholder_template(path@.take(i as int)),
            start == at_segment_start(path@.take(i as int)),
            inside == in_placeholder(path@.take(i as int)),
        decreases n - i,
    {
        let c = path.get_char(i);
        assert(path@.take(i + 1).drop_last() =~= path@.take(i as int));
        if c == '/' {
            push_char(&mut out, '/');
            inside = false;
        } else if start && c == ':' {
            push_char(&mut out, '{');
            push_char(&mut out, '}');
            assert(out@ =~= placeholder_template(path@.take(i + 1)));
            inside = true;
        } else if inside {
        } else {
            push_char(&mut out, c);
        }
        start = c == '/';
        i = i + 1;
    }
    assert(path@.take(n as int) =~= path@);
    out
}

/// The format template of a route with named fields.
pub fn query_format(path: &str, names: &Vec<String>) -> (r: String)
    ensures
        r@ == query_template(path@, names@),
{
    let mut out = String::new();
    push_text(&mut out, path);
    push_text(&mut out, "?");
    let ghost head = out@;
    let mut k: usize = 0;
    assert(out@ =~= head + query_part(names@, 0));
    while k < names.len()
        invariant
            k <= names@.len(),
            out@ == head + query_part(names@, k as nat),
        decreases names@.len() - k,
    {
        if k > 0 {
            push_text(&mut out, "&");
        }
        push_text(&mut out, names[k].as_str());
        push_text(&mut out, "={:?}");
        assert(out@ =~= head + query_part(names@, (k + 1) as nat));
        k = k + 1;
    }
    assert(head == path@ + "?"@);
    out
}

} // verus!
