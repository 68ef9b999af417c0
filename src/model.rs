//! The route model: annotations as plain values, and what is read from them.
use vstd::prelude::*;
use vstd::string::*;

use crate::text::same_text;

verus! {

/// One annotation on a variant: its name, when the annotation's path is a
/// single identifier, and its argument, when that parses as one string literal.
pub struct Attr {
    pub ident: Option<String>,
    pub lit: Option<String>,
}

/// The argument of a `state` annotation on the enumeration.
pub enum StateArg {
    /// The argument did not parse.
    Malformed,
    /// The annotation has no type in it.
    Empty,
    /// The type, as source text.
    Type(String),
}

/// The fields of a variant.
pub enum Fields {
    Unit,
    /// Positional fields, by their number.
    Unnamed(usize),
    /// Named fields, in declaration order.
    Named(Vec<String>),
}

/// One variant of the enumeration with what the generator reads of it.
pub struct VariantDecl {
    pub name: String,
    pub attrs: Vec<Attr>,
    pub fields: Fields,
}

/// The annotated enumeration.
pub struct Schema {
    pub name: String,
    pub state: Vec<StateArg>,
    pub variants: Vec<VariantDecl>,
}

/// The HTTP method and path template of one variant.
pub struct RouteVariant {
    pub method: String,
    pub path: String,
}

/// Method and path that one annotation contributes, if any: a named
/// annotation with a string argument gives its name and that string (but
/// `folder` gives nothing); a named annotation without one is taken for the
/// asset marker and gives `get` on the catch-all path `/*file`.
pub open spec fn attr_pair(a: Attr) -> Option<(Seq<char>, Seq<char>)> {
    match a.ident {
        Some(id) => match a.lit {
            Some(p) => if id@ != "folder"@ {
                Some((id@, p@))
            } else {
                None
            },
            None => Some(("get"@, "/*file"@)),
        },
        None => None,
    }
}

/// The pair of the last annotation that gives one.
pub open spec fn last_pair(attrs: Seq<Attr>) -> Option<(Seq<char>, Seq<char>)>
    decreases attrs.len(),
{
    if attrs.len() == 0 {
        None
    } else {
        match attr_pair(attrs.last()) {
            Some(p) => Some(p),
            None => last_pair(attrs.drop_last()),
        }
    }
}

pub open spec fn is_named(a: Attr, name: Seq<char>) -> bool {
    match a.ident {
        Some(id) => id@ == name,
        None => false,
    }
}

/// The argument of the last `state` annotation that parsed, as type text:
/// the unit type where there is none.
pub open spec fn state_of(args: Seq<StateArg>) -> Seq<char>
    decreases args.len(),
{
    if args.len() == 0 {
        "()"@
    } else {
        match args.last() {
            StateArg::Malformed => state_of(args.drop_last()),
            StateArg::Empty => Seq::empty(),
            StateArg::Type(t) => t@,
        }
    }
}

/// The first annotation named `name`, if any.
pub open spec fn first_named(attrs: Seq<Attr>, name: Seq<char>) -> Option<Attr>
    decreases attrs.len(),
{
    if attrs.len() == 0 {
        None
    } else if is_named(attrs[0], name) {
        Some(attrs[0])
    } else {
        first_named(attrs.drop_first(), name)
    }
}

/// Whether a variant carries an annotation named `name`.
pub open spec fn carries(v: VariantDecl, name: Seq<char>) -> bool {
    first_named(v.attrs@, name) is Some
}

/// The index of the last variant that carries an annotation named `name`.
pub open spec fn last_carrying(vs: Seq<VariantDecl>, name: Seq<char>) -> Option<int>
    decreases vs.len(),
{
    if vs.len() == 0 {
        None
    } else if carries(vs.last(), name) {
        Some(vs.len() - 1)
    } else {
        last_carrying(vs.drop_last(), name)
    }
}

/// The asset folder: the string argument of the first `folder` annotation of
/// the last variant that has one; `static` where there is no such variant or
/// that argument is not a string.
pub open spec fn folder_of(vs: Seq<VariantDecl>) -> Seq<char> {
    match last_carrying(vs, "folder"@) {
        Some(i) => match first_named(vs[i].attrs@, "folder"@) {
            Some(a) => match a.lit {
                Some(l) => l@,
                None => "static"@,
            },
            None => "static"@,
        },
        None => "static"@,
    }
}

/// The variant found by `last_carrying` exists and carries the annotation.
pub proof fn lemma_last_carrying_in_range(vs: Seq<VariantDecl>, name: Seq<char>)
    ensures
        match last_carrying(vs, name) {
            Some(i) => 0 <= i < vs.len() && carries(vs[i], name),
            None => true,
        },
    decreases vs.len(),
{
    if vs.len() > 0 {
        lemma_last_carrying_in_range(vs.drop_last(), name);
    }
}

fn attr_named(a: &Attr, name: &str) -> (r: bool)
    ensures
        r == is_named(*a, name@),
{
    match &a.ident {
        Some(id) => same_text(id.as_str(), name),
        None => false,
    }
}

/// The first annotation of `attrs` named `name`, by index.
fn find_named(attrs: &Vec<Attr>, name: &str) -> (r: Option<usize>)
    ensures
        match r {
            Some(k) => k < attrs@.len() && first_named(attrs@, name@) == Some(attrs@[k as int]),
            None => first_named(attrs@, name@) is None,
        },
{
    let mut k: usize = 0;
    assert(attrs@.skip(0) =~= attrs@);
    while k < attrs.len()
        invariant
            k <= attrs@.len(),
            first_named(attrs@, name@) == first_named(attrs@.skip(k as int), name@),
        decreases attrs@.len() - k,
    {
        assert(attrs@.skip(k as int).drop_first() =~= attrs@.skip(k + 1));
        if attr_named(&attrs[k], name) {
            return Some(k);
        }
        k = k + 1;
    }
    None
}

/// Whether `v` carries an annotation named `name`.
pub fn has_attr(v: &VariantDecl, name: &str) -> (r: bool)
    ensures
        r == carries(*v, name@),
{
    find_named(&v.attrs, name).is_some()
}

/// The last variant that carries an annotation named `name`, by index.
pub fn last_with_attr(vs: &Vec<VariantDecl>, name: &str) -> (r: Option<usize>)
    ensures
        match r {
            Some(i) => i < vs@.len() && last_carrying(vs@, name@) == Some(i as int),
            None => last_carrying(vs@, name@) is None,
        },
{
    proof {
        lemma_last_carrying_in_range(vs@, name@);
    }
    let mut i: usize = vs.len();
    assert(vs@.take(i as int) =~= vs@);
    while i > 0
        invariant
            i <= vs@.len(),
            last_carrying(vs@, name@) == last_carrying(vs@.take(i as int), name@),
        decreases i,
    {
        assert(vs@.take(i as int).drop_last() =~= vs@.take(i - 1));
        if has_attr(&vs[i - 1], name) {
            return Some(i - 1);
        }
        i = i - 1;
    }
    None
}

/// The message given when a variant has no route annotation.
pub open spec fn missing_route_message() -> Seq<char> {
    "should be #[get], #[post], #[put], #[delete], #[state], #[embed] or #[folder]"@
}

fn pair_of(a: &Attr) -> (r: Option<RouteVariant>)
    ensures
        match attr_pair(*a) {
            Some(p) => r is Some && r->0.method@ == p.0 && r->0.path@ == p.1,
            None => r is None,
        },
{
    match &a.ident {
        Some(id) => match &a.lit {
            Some(p) => {
                if !same_text(id.as_str(), "folder") {
                    Some(RouteVariant { method: id.clone(), path: p.clone() })
                } else {
                    None
                }
            },
            None => Some(
                RouteVariant { method: String::from_str("get"), path: String::from_str("/*file") },
            ),
        },
        None => None,
    }
}

impl RouteVariant {
    /// Reads the method and path of a variant from its annotations: the last
    /// annotation that gives a pair wins. Fails, with a message naming the
    /// accepted annotations, where none gives one.
    pub fn from_variant(v: &VariantDecl) -> (r: Result<RouteVariant, String>)
        ensures
            match last_pair(v.attrs@) {
                Some(p) => r is Ok && r->Ok_0.method@ == p.0 && r->Ok_0.path@ == p.1,
                None => r is Err && r->Err_0@ == missing_route_message(),
            },
    {
        let mut i: usize = v.attrs.len();
        assert(v.attrs@.take(i as int) =~= v.attrs@);
        while i > 0
            invariant
                i <= v.attrs@.len(),
                last_pair(v.attrs@) == last_pair(v.attrs@.take(i as int)),
            decreases i,
        {
            assert(v.attrs@.take(i as int).drop_last() =~= v.attrs@.take(i - 1));
            match pair_of(&v.attrs[i - 1]) {
                Some(route) => {
                    return Ok(route);
                },
                None => {},
            }
            i = i - 1;
        }
        Err(
            String::from_str(
                "should be #[get], #[post], #[put], #[delete], #[state], #[embed] or #[folder]",
            ),
        )
    }
}

/// The type text that the route table is parameterised by.
pub fn state_generic(args: &Vec<StateArg>) -> (r: String)
    ensures
        r@ == state_of(args@),
{
    let mut i: usize = args.len();
    assert(args@.take(i as int) =~= args@);
    while i > 0
        invariant
            i <= args@.len(),
            state_of(args@) == state_of(args@.take(i as int)),
        decreases i,
    {
        assert(args@.take(i as int).drop_last() =~= args@.take(i - 1));
        match &args[i - 1] {
            StateArg::Malformed => {},
            StateArg::Empty => {
                return String::new();
            },
            StateArg::Type(t) => {
                return t.clone();
            },
        }
        i = i - 1;
    }
    String::from_str("()")
}

/// The folder that embedded assets are read from.
pub fn folder(vs: &Vec<VariantDecl>) -> (r: String)
    ensures
        r@ == folder_of(vs@),
{
    proof {
        lemma_last_carrying_in_range(vs@, "folder"@);
    }
    match last_with_attr(vs, "folder") {
        Some(i) => match find_named(&vs[i].attrs, "folder") {
            Some(k) => match &vs[i].attrs[k].lit {
                Some(l) => l.clone(),
                None => String::from_str("static"),
            },
            None => String::from_str("static"),
        },
        None => String::from_str("static"),
    }
}

/// The method and path read from a variant come from one of its annotations:
/// either the annotation's own name and string argument, or `get` and
/// `/*file` from a named annotation without a string argument.
pub proof fn lemma_pair_from_annotation(attrs: Seq<Attr>)
    ensures
        match last_pair(attrs) {
            Some(p) => exists|k: int| 0 <= k < attrs.len() && attr_pair(#[trigger] attrs[k]) == Some(p),
            None => forall|k: int| 0 <= k < attrs.len() ==> attr_pair(#[trigger] attrs[k]) is None,
        },
    decreases attrs.len(),
{
    if attrs.len() > 0 {
        let q = attrs.drop_last();
        lemma_pair_from_annotation(q);
        match attr_pair(attrs.last()) {
            Some(p) => {
                assert(attr_pair(attrs[attrs.len() - 1]) == Some(p));
            },
            None => {
                match last_pair(q) {
                    Some(p) => {
                        let k = choose|k: int| 0 <= k < q.len() && attr_pair(#[trigger] q[k]) == Some(p);
                        assert(attrs[k] == q[k]);
                    },
                    None => {
                        assert forall|k: int| 0 <= k < attrs.len() implies attr_pair(#[trigger] attrs[k]) is None by {
                            if k < q.len() {
                                assert(attrs[k] == q[k]);
                            }
                        }
                    },
                }
            },
        }
    }
}

/// The folder comes from the last variant with a `folder` annotation: where
/// variant `j` has one and no later variant does, the folder is what `j`'s
/// first `folder` annotation says, whatever earlier variants say.
pub proof fn lemma_folder_last_wins(vs: Seq<VariantDecl>, j: int)
    requires
        0 <= j < vs.len(),
        carries(vs[j], "folder"@),
        forall|k: int| j < k < vs.len() ==> !carries(#[trigger] vs[k], "folder"@),
    ensures
        last_carrying(vs, "folder"@) == Some(j),
        folder_of(vs) == match first_named(vs[j].attrs@, "folder"@) {
            Some(a) => match a.lit {
                Some(l) => l@,
                None => "static"@,
            },
            None => "static"@,
        },
    decreases vs.len(),
{
    if j < vs.len() - 1 {
        let q = vs.drop_last();
        assert(!carries(vs[vs.len() - 1], "folder"@));
        assert forall|k: int| j < k < q.len() implies !carries(#[trigger] q[k], "folder"@) by {
            assert(q[k] == vs[k]);
        }
        assert(q[j] == vs[j]);
        lemma_folder_last_wins(q, j);
    }
}

} // verus!
