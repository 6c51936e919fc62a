//! Character sequences: the order in which file names are listed, and the
//! few string operations the rest of the crate builds on.

use vstd::prelude::*;
use vstd::std_specs::iter::IteratorSpec;

verus! {

/// `a` comes strictly before `b` in lexicographic order, characters compared
/// by code point. A proper prefix comes before the longer text.
pub open spec fn lex_less(a: Seq<char>, b: Seq<char>) -> bool
    decreases a.len(),
{
    if b.len() == 0 {
        false
    } else if a.len() == 0 {
        true
    } else if a[0] == b[0] {
        lex_less(a.drop_first(), b.drop_first())
    } else {
        a[0] < b[0]
    }
}

/// Nothing comes before itself.
pub proof fn lex_less_irreflexive(a: Seq<char>)
    ensures
        !lex_less(a, a),
    decreases a.len(),
{
    if a.len() > 0 {
        lex_less_irreflexive(a.drop_first());
    }
}

/// Of two texts at most one comes before the other.
pub proof fn lex_less_asymmetric(a: Seq<char>, b: Seq<char>)
    ensures
        lex_less(a, b) ==> !lex_less(b, a),
    decreases a.len(),
{
    if a.len() > 0 && b.len() > 0 && a[0] == b[0] {
        lex_less_asymmetric(a.drop_first(), b.drop_first());
    }
}

/// What comes before a text comes before everything after that text.
pub proof fn lex_less_transitive(a: Seq<char>, b: Seq<char>, c: Seq<char>)
    ensures
        lex_less(a, b) && lex_less(b, c) ==> lex_less(a, c),
    decreases a.len(),
{
    if a.len() > 0 && b.len() > 0 && c.len() > 0 && a[0] == b[0] && b[0] == c[0] {
        lex_less_transitive(a.drop_first(), b.drop_first(), c.drop_first());
    }
}

/// Of two different texts one comes before the other.
pub proof fn lex_less_total(a: Seq<char>, b: Seq<char>)
    ensures
        a == b || lex_less(a, b) || lex_less(b, a),
    decreases a.len(),
{
    if a.len() > 0 && b.len() > 0 && a[0] == b[0] {
        lex_less_total(a.drop_first(), b.drop_first());
        if a.drop_first() == b.drop_first() {
            assert(a =~= seq![a[0]] + a.drop_first());
            assert(b =~= seq![b[0]] + b.drop_first());
        }
    } else if a.len() == 0 && b.len() == 0 {
        assert(a =~= b);
    }
}

/// What comes before a text comes before everything that the text does not
/// come after.
pub proof fn lex_less_before_not_less(a: Seq<char>, b: Seq<char>, c: Seq<char>)
    ensures
        lex_less(a, c) && !lex_less(b, c) ==> lex_less(a, b),
{
    lex_less_total(b, c);
    lex_less_transitive(a, c, b);
}

/// Appends one character to `s`.
///
/// Wraps `String::push`, which the standard library documents as appending
/// the given `char` to the end of the string.
#[verifier::external_body]
pub(crate) fn push_char(s: &mut String, c: char)
    ensures
        final(s)@ == old(s)@.push(c),
{
    s.push(c)
}

/// Whether `a` sorts strictly before `b`.
pub fn str_less(a: &str, b: &str) -> (less: bool)
    ensures
        less == lex_less(a@, b@),
{
    let mut xs = a.chars();
    let mut ys = b.chars();
    loop
        invariant
            lex_less(a@, b@) == lex_less(xs.remaining(), ys.remaining()),
            xs.decrease() is Some,
        decreases xs.decrease()->0,
    {
        let x = xs.next();
        let y = ys.next();
        match (x, y) {
            (_, None) => {
                return false;
            },
            (None, Some(_)) => {
                return true;
            },
            (Some(c), Some(d)) => {
                if c != d {
                    return c < d;
                }
            },
        }
    }
}

} // verus!
