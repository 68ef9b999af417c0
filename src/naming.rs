//! Handler names derived from variant names.
use vstd::prelude::*;
use vstd::string::*;

use crate::text::push_char;

verus! {

/// Whether a character has the Unicode `Uppercase` property.
pub uninterp spec fn is_upper(c: char) -> bool;

/// The first character of the Unicode lowercase mapping of a character.
pub uninterp spec fn lower_of(c: char) -> char;

/// ASCII lowercasing: `A`..=`Z` move to `a`..=`z`, everything else stays.
/// On ASCII characters this is what the Unicode lowercase mapping does.
pub open spec fn ascii_lower(c: char) -> char {
    if 'A' <= c && c <= 'Z' {
        ((c as u32) + 32) as char
    } else {
        c
    }
}

/// Relies on `char::is_uppercase`; among ASCII characters exactly `A`..=`Z`
/// are uppercase.
#[verifier::external_body]
fn char_is_upper(c: char) -> (r: bool)
    ensures
        r == is_upper(c),
        (c as u32) < 128 ==> (r <==> ('A' <= c && c <= 'Z')),
{
    c.is_uppercase()
}

/// Relies on `char::to_lowercase`, whose iterator always yields at least one
/// character: the first one is taken. An ASCII character lowers as
/// `to_ascii_lowercase` does.
#[verifier::external_body]
fn char_lower(c: char) -> (r: char)
    ensures
        r == lower_of(c),
        (c as u32) < 128 ==> r == ascii_lower(c),
{
    c.to_lowercase().next().unwrap()
}

/// The snake-case image of the characters after the first one: an uppercase
/// character becomes `_` and its lowercase form, any other stays.
pub open spec fn snake_tail(s: Seq<char>) -> Seq<char>
    decreases s.len(),
{
    if s.len() == 0 {
        Seq::empty()
    } else {
        let c = s.last();
        let rest = snake_tail(s.drop_last());
        if is_upper(c) {
            rest + seq!['_', lower_of(c)]
        } else {
            rest.push(c)
        }
    }
}

/// Pascal case to snake case: the first character is lowercased, each
/// later uppercase character becomes `_` followed by its lowercase form.
pub open spec fn snake_of(s: Seq<char>) -> Seq<char> {
    if s.len() == 0 {
        Seq::empty()
    } else {
        seq![lower_of(s[0])] + snake_tail(s.drop_first())
    }
}

/// Whether every character of `s` is ASCII.
pub open spec fn all_ascii(s: Seq<char>) -> bool {
    forall|i: int| 0 <= i < s.len() ==> (#[trigger] s[i] as u32) < 128
}

/// `snake_tail` on ASCII text, where the uppercase characters are `A`..=`Z`.
pub open spec fn ascii_snake_tail(s: Seq<char>) -> Seq<char>
    decreases s.len(),
{
    if s.len() == 0 {
        Seq::empty()
    } else {
        let c = s.last();
        let rest = ascii_snake_tail(s.drop_last());
        if 'A' <= c && c <= 'Z' {
            rest + seq!['_', ascii_lower(c)]
        } else {
            rest.push(c)
        }
    }
}

/// `snake_of` on ASCII text.
pub open spec fn ascii_snake_of(s: Seq<char>) -> Seq<char> {
    if s.len() == 0 {
        Seq::empty()
    } else {
        seq![ascii_lower(s[0])] + ascii_snake_tail(s.drop_first())
    }
}

/// Turns a variant name such as `GetAllUsers` into the name of its handler,
/// `get_all_users`. Runs of capitals are not treated as one word.
pub fn pascal_to_camel(input: &str) -> (r: String)
    ensures
        r@ == snake_of(input@),
        all_ascii(input@) ==> r@ == ascii_snake_of(input@),
{
    let n = input.unicode_len();
    let mut result = String::new();
    if n == 0 {
        return result;
    }
    let first = input.get_char(0);
    assert(all_ascii(input@) ==> (input@[0] as u32) < 128);
    push_char(&mut result, char_lower(first));
    assert(all_ascii(input@) ==> result@ =~= seq![ascii_lower(input@[0])] + ascii_snake_tail(input@.drop_first().take(0)));
    let ghost tail = input@.drop_first();
    let mut i: usize = 1;
    while i < n
        invariant
            1 <= i <= n,
            n == input@.len(),
            tail == input@.drop_first(),
            result@ == seq![lower_of(input@[0])] + snake_tail(tail.take(i - 1)),
            all_ascii(input@) ==> result@ == seq![ascii_lower(input@[0])] + ascii_snake_tail(
                tail.take(i - 1),
            ),
        decreases n - i,
    {
        let c = input.get_char(i);
        assert(tail.take(i as int).drop_last() =~= tail.take(i - 1));
        assert(tail.take(i as int).last() == c);
        assert(all_ascii(input@) ==> (input@[i as int] as u32) < 128);
        if char_is_upper(c) {
            push_char(&mut result, '_');
            push_char(&mut result, char_lower(c));
            assert(result@ =~= seq![lower_of(input@[0])] + snake_tail(tail.take(i as int)));
            assert(all_ascii(input@) ==> result@ =~= seq![ascii_lower(input@[0])] + ascii_snake_tail(tail.take(i as int)));
        } else {
            push_char(&mut result, c);
            assert(result@ =~= seq![lower_of(input@[0])] + snake_tail(tail.take(i as int)));
            assert(all_ascii(input@) ==> result@ =~= seq![ascii_lower(input@[0])] + ascii_snake_tail(tail.take(i as int)));
        }
        i = i + 1;
    }
    assert(tail.take(n - 1) =~= tail);
    result
}

/// An already lowercase name, one with no uppercase character whose first
/// character is its own lowercase form, is its own snake case: the
/// transform leaves it unchanged, and applying it twice is applying it once.
pub proof fn lemma_snake_of_lowercase(s: Seq<char>)
    requires
        forall|i: int| 0 <= i < s.len() ==> !is_upper(#[trigger] s[i]),
        s.len() > 0 ==> lower_of(s[0]) == s[0],
    ensures
        snake_of(s) == s,
        snake_of(snake_of(s)) == snake_of(s),
{
    if s.len() > 0 {
        lemma_snake_tail_lowercase(s.drop_first());
        assert(snake_of(s) =~= s);
    }
}

proof fn lemma_snake_tail_lowercase(s: Seq<char>)
    requires
        forall|i: int| 0 <= i < s.len() ==> !is_upper(#[trigger] s[i]),
    ensures
        snake_tail(s) == s,
    decreases s.len(),
{
    if s.len() > 0 {
        lemma_snake_tail_lowercase(s.drop_last());
        assert(s.drop_last().push(s.last()) =~= s);
    }
}

} // verus!
