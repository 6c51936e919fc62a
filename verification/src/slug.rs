//! File names for posts that were saved without one.

use crate::text::push_char;
use vstd::prelude::*;
use vstd::string::StringExecFns;

verus! {

/// The lowercase form of a text, as `str::to_lowercase` gives it.
pub uninterp spec fn lowercase(s: Seq<char>) -> Seq<char>;

/// Whether a character is alphabetic or numeric, as `char::is_alphanumeric`
/// decides it.
pub uninterp spec fn alphanumeric(c: char) -> bool;

/// The lowercase form of `s`.
///
/// Wraps `str::to_lowercase`. The standard library defines the result by the
/// Unicode tables it ships; the contract only gives it its name.
#[verifier::external_body]
fn to_lowercase(s: &str) -> (lower: String)
    ensures
        lower@ == lowercase(s@),
{
    s.to_lowercase()
}

/// Whether `c` is alphabetic or numeric.
///
/// Wraps `char::is_alphanumeric`, which goes by Unicode's general categories;
/// the contract only gives the answer its name.
#[verifier::external_body]
fn is_alphanumeric(c: char) -> (yes: bool)
    ensures
        yes == alphanumeric(c),
{
    c.is_alphanumeric()
}

/// The extension every post file carries.
pub open spec fn post_extension() -> Seq<char> {
    seq!['.', 'm', 'd']
}

/// What one character of a lowercased title becomes in a slug.
pub open spec fn slug_char(c: char) -> char {
    if alphanumeric(c) {
        c
    } else {
        '-'
    }
}

/// The slug of a title without its extension: one character for each
/// character of the lowercased title.
pub open spec fn slug_stem(title: Seq<char>) -> Seq<char> {
    lowercase(title).map_values(|c: char| slug_char(c))
}

/// The file name derived from a title.
pub open spec fn slug(title: Seq<char>) -> Seq<char> {
    slug_stem(title) + post_extension()
}

/// Derives a file name from a title: the title in lower case, every
/// character that is not alphanumeric replaced by a hyphen, then `.md`.
/// Runs of hyphens are kept as they are. Each character of the name stands
/// for one of the lowercased title, which can have more than the title.
pub fn slugify(title: &str) -> (filename: String)
    ensures
        filename@ == slug(title@),
{
    let lower = to_lowercase(title);
    let mut filename = String::new();
    for c in it: lower.as_str().chars()
        invariant
            it.seq() == lowercase(title@),
            filename@ == lowercase(title@).take(it.index() as int).map_values(
                |c: char| slug_char(c),
            ),
    {
        proof {
            let lowered = lowercase(title@);
            let done = it.index() as int;
            let mapped = |c: char| slug_char(c);
            assert(lowered.take(done + 1).map_values(mapped) =~= lowered.take(done).map_values(
                mapped,
            ).push(slug_char(lowered[done])));
        }
        let kept = if is_alphanumeric(c) {
            c
        } else {
            '-'
        };
        push_char(&mut filename, kept);
    }
    proof {
        reveal_strlit(".md");
    }
    filename.append(".md");
    filename
}

/// The slug of a title depends on the title alone: equal titles have equal
/// slugs.
pub proof fn slug_is_deterministic(first: Seq<char>, second: Seq<char>)
    ensures
        first == second ==> slug(first) == slug(second),
{
}

/// A slug holds one character for each character of the lowercased title,
/// which is that character where it is alphanumeric and a hyphen where it is
/// not, and after them the extension, nothing else.
///
/// The lowercased title can be longer than the title, and a cased letter
/// that has no lowercase form stays in it as it is: the slug is made of what
/// lowercasing leaves, which is not in every case a lowercase letter.
pub proof fn slug_is_well_formed(title: Seq<char>)
    ensures
        slug(title).len() == lowercase(title).len() + post_extension().len(),
        slug(title).subrange(lowercase(title).len() as int, slug(title).len() as int)
            == post_extension(),
        forall|i: int|
            0 <= i < lowercase(title).len() ==> {
                ||| (#[trigger] slug(title)[i]) == '-'
                ||| (alphanumeric(slug(title)[i]) && slug(title)[i] == lowercase(title)[i])
            },
{
    assert(slug(title).subrange(lowercase(title).len() as int, slug(title).len() as int)
        =~= post_extension());
}

} // verus!
