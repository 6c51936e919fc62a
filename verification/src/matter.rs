//! The front matter parser this crate relies on, and what is assumed of it.
//!
//! Parsing is done by `gray_matter` with its YAML engine. Nothing here is
//! proved of that parser: its results are given names, and the rest of the
//! crate is verified for whatever those names stand for.

use gray_matter::engine::YAML;
use gray_matter::Matter;
use gray_matter::Pod;
use vstd::prelude::*;

verus! {

/// A value the parser found under a key of a front matter mapping.
#[derive(Debug, Clone, PartialEq, Eq)]
pub enum Value {
    /// A string.
    Text(String),
    /// A boolean.
    Flag(bool),
    /// Anything else: a number, a list, a nested mapping, or null.
    Other,
}

/// The mathematical counterpart of [`Value`].
pub enum ValueView {
    Text(Seq<char>),
    Flag(bool),
    Other,
}

impl View for Value {
    type V = ValueView;

    open spec fn view(&self) -> ValueView {
        match self {
            Value::Text(s) => ValueView::Text(s@),
            Value::Flag(b) => ValueView::Flag(*b),
            Value::Other => ValueView::Other,
        }
    }
}

/// What the parser reports of a text.
pub struct ParsedView {
    /// The entries of the front matter block, where the text has such a
    /// block and it is a mapping.
    pub entries: Option<Map<Seq<char>, ValueView>>,
    /// The text without the front matter block and its delimiters.
    pub content: Seq<char>,
}

/// `gray_matter`'s representation of parsed front matter.
#[verifier::external_type_specification]
#[verifier::external_body]
pub struct ExPod(gray_matter::Pod);

/// The entries of a front matter value, keyed by name; `None` where the
/// value is not a mapping.
pub uninterp spec fn pod_entries(pod: Pod) -> Option<Map<Seq<char>, ValueView>>;

/// What `gray_matter`'s parser, with `---` as delimiter and YAML as the
/// format of the block, reports of a text.
pub uninterp spec fn matter_parse(raw: Seq<char>) -> ParsedView;

/// What a mapping holds under a key.
pub open spec fn entry_at(entries: Option<Map<Seq<char>, ValueView>>, key: Seq<char>) -> Option<
    ValueView,
> {
    match entries {
        Some(map) => if map.contains_key(key) {
            Some(map[key])
        } else {
            None
        },
        None => None,
    }
}

/// Parses `raw` into its front matter value, if it has one, and its content.
///
/// Wraps `Matter::<YAML>::new().parse`, and hands back the fields `data` and
/// `content` of the `ParsedEntity` it returns. The parser reports front
/// matter only where the first line is the delimiter, a later line closes
/// the block and the block is not blank; YAML that does not load becomes the
/// null value. The contract gives the pair its name and claims nothing else.
#[verifier::external_body]
pub(crate) fn parse_matter(raw: &str) -> (parsed: (Option<Pod>, String))
    ensures
        parsed.1@ == matter_parse(raw@).content,
        matter_parse(raw@).entries == match parsed.0 {
            Some(pod) => pod_entries(pod),
            None => None,
        },
{
    let entity = Matter::<YAML>::new().parse(raw);
    (entity.data, entity.content)
}

/// Whether `pod` is a mapping.
///
/// Tells `Pod::Hash` from the other variants of `gray_matter::Pod`.
#[verifier::external_body]
pub(crate) fn pod_is_mapping(pod: &Pod) -> (yes: bool)
    ensures
        yes == pod_entries(*pod).is_some(),
{
    matches!(pod, Pod::Hash(_))
}

/// The value that `pod` holds under `key`, if it is a mapping and has the
/// key.
///
/// Looks the key up in the `HashMap` of a `Pod::Hash` and copies a
/// `Pod::String` or a `Pod::Boolean` out of it; every other variant is
/// reported as [`Value::Other`].
#[verifier::external_body]
pub(crate) fn pod_entry(pod: &Pod, key: &str) -> (found: Option<Value>)
    ensures
        found.is_some() == entry_at(pod_entries(*pod), key@).is_some(),
        found matches Some(value) ==> value@ == entry_at(pod_entries(*pod), key@).unwrap(),
{
    match pod {
        Pod::Hash(map) => match map.get(key) {
            Some(Pod::String(text)) => Some(Value::Text(text.clone())),
            Some(Pod::Boolean(flag)) => Some(Value::Flag(*flag)),
            Some(_) => Some(Value::Other),
            None => None,
        },
        _ => None,
    }
}

} // verus!
