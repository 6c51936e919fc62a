//! The front matter codec: from the text of a post file to its metadata and
//! body, and from the canonical fields of a post back to text.

use crate::matter::{
    entry_at, matter_parse, parse_matter, pod_entry, pod_is_mapping, ParsedView, Value, ValueView,
};
use vstd::prelude::*;
use vstd::std_specs::iter::IteratorSpec;
use vstd::string::StringExecFns;

verus! {

/// The metadata of a post as its file states it. A field is `None` where the
/// front matter has no such key, or holds a value of another type under it.
#[derive(Debug, Clone, PartialEq, Eq)]
pub struct Frontmatter {
    pub title: Option<String>,
    pub description: Option<String>,
    pub pub_date: Option<String>,
    pub draft: Option<bool>,
}

/// The mathematical counterpart of [`Frontmatter`].
pub struct FrontmatterView {
    pub title: Option<Seq<char>>,
    pub description: Option<Seq<char>>,
    pub pub_date: Option<Seq<char>>,
    pub draft: Option<bool>,
}

/// A post file taken apart.
#[derive(Debug, Clone, PartialEq, Eq)]
pub struct Document {
    pub meta: Frontmatter,
    pub body: String,
}

/// The mathematical counterpart of [`Document`].
pub struct DocumentView {
    pub meta: FrontmatterView,
    pub body: Seq<char>,
}

/// The view of an optional string.
pub open spec fn text_view(text: Option<String>) -> Option<Seq<char>> {
    match text {
        Some(s) => Some(s@),
        None => None,
    }
}

impl View for Frontmatter {
    type V = FrontmatterView;

    open spec fn view(&self) -> FrontmatterView {
        FrontmatterView {
            title: text_view(self.title),
            description: text_view(self.description),
            pub_date: text_view(self.pub_date),
            draft: self.draft,
        }
    }
}

impl View for Document {
    type V = DocumentView;

    open spec fn view(&self) -> DocumentView {
        DocumentView { meta: self.meta@, body: self.body@ }
    }
}

/// Metadata with no field set.
pub open spec fn no_metadata() -> FrontmatterView {
    FrontmatterView { title: None, description: None, pub_date: None, draft: None }
}

/// The string under a key, if there is one.
pub open spec fn as_text(found: Option<ValueView>) -> Option<Seq<char>> {
    match found {
        Some(ValueView::Text(s)) => Some(s),
        _ => None,
    }
}

/// The boolean under a key, if there is one.
pub open spec fn as_flag(found: Option<ValueView>) -> Option<bool> {
    match found {
        Some(ValueView::Flag(b)) => Some(b),
        _ => None,
    }
}

/// The metadata that four looked-up values amount to: strings for the title,
/// the description and the date, a boolean for the draft mark. A value of
/// another type counts as absent.
pub open spec fn typed_fields(
    title: Option<ValueView>,
    description: Option<ValueView>,
    pub_date: Option<ValueView>,
    draft: Option<ValueView>,
) -> FrontmatterView {
    FrontmatterView {
        title: as_text(title),
        description: as_text(description),
        pub_date: as_text(pub_date),
        draft: as_flag(draft),
    }
}

/// The metadata held in a front matter mapping. Keys other than the four
/// known ones are ignored.
pub open spec fn frontmatter_of(entries: Map<Seq<char>, ValueView>) -> FrontmatterView {
    typed_fields(
        entry_at(Some(entries), "title"@),
        entry_at(Some(entries), "description"@),
        entry_at(Some(entries), "pubDate"@),
        entry_at(Some(entries), "draft"@),
    )
}

/// The document that a text and its metadata, if any was found, amount to.
/// With metadata the body is the content that follows the block; without,
/// no field is set and the body is the whole text.
pub open spec fn document_of(
    raw: Seq<char>,
    meta: Option<FrontmatterView>,
    content: Seq<char>,
) -> DocumentView {
    match meta {
        Some(meta) => DocumentView { meta, body: content },
        None => DocumentView { meta: no_metadata(), body: raw },
    }
}

/// The metadata that the parser's report holds, if it holds a mapping.
pub open spec fn parsed_metadata(parsed: ParsedView) -> Option<FrontmatterView> {
    match parsed.entries {
        Some(entries) => Some(frontmatter_of(entries)),
        None => None,
    }
}

/// The line that opens and closes a front matter block.
pub open spec fn delimiter() -> Seq<char> {
    seq!['-', '-', '-']
}

/// Whether a text begins with the delimiter. Only such a text can have a
/// front matter block.
pub open spec fn begins_with_delimiter(raw: Seq<char>) -> bool {
    raw.len() >= 3 && raw.subrange(0, 3) == delimiter()
}

/// What a text decodes to. A text that does not begin with the delimiter
/// has no metadata and is its own body; of any other text the parser says
/// what block it has.
pub open spec fn decoded(raw: Seq<char>) -> DocumentView {
    if begins_with_delimiter(raw) {
        document_of(raw, parsed_metadata(matter_parse(raw)), matter_parse(raw).content)
    } else {
        document_of(raw, None, Seq::empty())
    }
}

/// How a draft mark is written.
pub open spec fn flag_text(draft: bool) -> Seq<char> {
    if draft {
        "true"@
    } else {
        "false"@
    }
}

/// The text of a post file with the given fields.
pub open spec fn encoded(
    title: Seq<char>,
    description: Seq<char>,
    date: Seq<char>,
    draft: bool,
    body: Seq<char>,
) -> Seq<char> {
    "---\ntitle: \""@ + title + "\"\ndescription: \""@ + description + "\"\npubDate: "@ + date
        + "\ndraft: "@ + flag_text(draft) + "\n---\n\n"@ + body
}

/// Reads the four known fields out of looked-up values, each by its type.
pub fn frontmatter_from(
    title: Option<Value>,
    description: Option<Value>,
    pub_date: Option<Value>,
    draft: Option<Value>,
) -> (meta: Frontmatter)
    ensures
        meta@ == typed_fields(
            value_view(title),
            value_view(description),
            value_view(pub_date),
            value_view(draft),
        ),
{
    Frontmatter {
        title: text_in(title),
        description: text_in(description),
        pub_date: text_in(pub_date),
        draft: match draft {
            Some(Value::Flag(b)) => Some(b),
            _ => None,
        },
    }
}

/// The view of a looked-up value.
pub open spec fn value_view(found: Option<Value>) -> Option<ValueView> {
    match found {
        Some(value) => Some(value@),
        None => None,
    }
}

fn text_in(found: Option<Value>) -> (text: Option<String>)
    ensures
        text_view(text) == as_text(value_view(found)),
{
    match found {
        Some(Value::Text(s)) => Some(s),
        _ => None,
    }
}

/// Puts a document together from a text, the metadata found in it and the
/// content after its front matter block.
pub fn document_from(raw: &str, meta: Option<Frontmatter>, content: String) -> (doc: Document)
    ensures
        doc@ == document_of(
            raw@,
            match meta {
                Some(m) => Some(m@),
                None => None,
            },
            content@,
        ),
{
    match meta {
        Some(meta) => Document { meta, body: content },
        None => Document {
            meta: Frontmatter { title: None, description: None, pub_date: None, draft: None },
            body: String::from_str(raw),
        },
    }
}

/// Whether `raw` begins with the delimiter.
pub fn has_delimiter(raw: &str) -> (yes: bool)
    ensures
        yes == begins_with_delimiter(raw@),
{
    let mut chars = raw.chars();
    let first = chars.next();
    let second = chars.next();
    let third = chars.next();
    let yes = match (first, second, third) {
        (Some(a), Some(b), Some(c)) => a == '-' && b == '-' && c == '-',
        _ => false,
    };
    proof {
        if raw@.len() >= 3 {
            let start = raw@.subrange(0, 3);
            if yes {
                assert(start =~= delimiter());
            }
        }
    }
    yes
}

/// Decodes the text of a post file. Never fails: a text without a front
/// matter block, or with one that is no mapping, decodes to a document with
/// no field set whose body is the whole text.
pub fn decode(raw: &str) -> (doc: Document)
    ensures
        doc@ == decoded(raw@),
{
    if !has_delimiter(raw) {
        return document_from(raw, None, String::new());
    }
    let (data, content) = parse_matter(raw);
    let meta = match data {
        Some(pod) => {
            if pod_is_mapping(&pod) {
                Some(
                    frontmatter_from(
                        pod_entry(&pod, "title"),
                        pod_entry(&pod, "description"),
                        pod_entry(&pod, "pubDate"),
                        pod_entry(&pod, "draft"),
                    ),
                )
            } else {
                None
            }
        },
        None => None,
    };
    document_from(raw, meta, content)
}

/// Encodes the canonical fields of a post: a block delimited by `---` with
/// `title`, `description`, `pubDate` and `draft` in that order, a blank line,
/// and the body. Title and description are put between double quotes as
/// they are, without escaping.
pub fn encode(title: &str, description: &str, date: &str, draft: bool, body: &str) -> (raw: String)
    ensures
        raw@ == encoded(title@, description@, date@, draft, body@),
{
    let mut raw = String::from_str("---\ntitle: \"");
    raw.append(title);
    raw.append("\"\ndescription: \"");
    raw.append(description);
    raw.append("\"\npubDate: ");
    raw.append(date);
    raw.append("\ndraft: ");
    raw.append(
        if draft {
            "true"
        } else {
            "false"
        },
    );
    raw.append("\n---\n\n");
    raw.append(body);
    raw
}

/// Every encoded text begins with the delimiter: what it decodes to is for
/// the parser to say.
pub proof fn encoded_begins_with_delimiter(
    title: Seq<char>,
    description: Seq<char>,
    date: Seq<char>,
    draft: bool,
    body: Seq<char>,
)
    ensures
        begins_with_delimiter(encoded(title, description, date, draft, body)),
{
    reveal_strlit("---\ntitle: \"");
    let text = encoded(title, description, date, draft, body);
    assert(text.subrange(0, 3) =~= delimiter());
}

/// Whether the parser reports, of the text that [`encode`] writes for a
/// post, what was written: a mapping that holds the title, the description
/// and the date as strings and the draft mark as a boolean under their keys,
/// and the body as content.
///
/// It does not of every post. Among those of which it does not, by its
/// source: it reports the body without the line breaks at its start and
/// without its last line end, and with a line feed for every carriage
/// return that a line feed follows. It reports a date that YAML reads as a
/// number, a boolean or null, as one made of digits alone, as that and not
/// as a string. And it reports no mapping, or other strings, where the
/// title or the description holds a double quote, a backslash or a line
/// break.
pub open spec fn parser_gives_back(
    title: Seq<char>,
    description: Seq<char>,
    date: Seq<char>,
    draft: bool,
    body: Seq<char>,
) -> bool {
    let parsed = matter_parse(encoded(title, description, date, draft, body));
    &&& parsed.entries is Some
    &&& entry_at(parsed.entries, "title"@) == Some(ValueView::Text(title))
    &&& entry_at(parsed.entries, "description"@) == Some(ValueView::Text(description))
    &&& entry_at(parsed.entries, "pubDate"@) == Some(ValueView::Text(date))
    &&& entry_at(parsed.entries, "draft"@) == Some(ValueView::Flag(draft))
    &&& parsed.content == body
}

/// Decoding gives back the four fields and the body of an encoded post
/// wherever the parser gives them back; see [`parser_gives_back`] for where
/// it does not.
pub proof fn decode_gives_back_what_the_parser_does(
    title: Seq<char>,
    description: Seq<char>,
    date: Seq<char>,
    draft: bool,
    body: Seq<char>,
)
    ensures
        parser_gives_back(title, description, date, draft, body) ==> decoded(
            encoded(title, description, date, draft, body),
        ) == (DocumentView {
            meta: FrontmatterView {
                title: Some(title),
                description: Some(description),
                pub_date: Some(date),
                draft: Some(draft),
            },
            body,
        }),
{
    encoded_begins_with_delimiter(title, description, date, draft, body);
}

/// Decoding gives back a title, a description, a date, a draft mark and a
/// body wherever the parser reports them of a text that begins with the
/// delimiter: a mapping that holds the first three as strings and the mark
/// as a boolean under their keys, and the body as content.
pub proof fn decode_gives_back_reported_fields(
    raw: Seq<char>,
    title: Seq<char>,
    description: Seq<char>,
    date: Seq<char>,
    draft: bool,
    body: Seq<char>,
)
    ensures
        ({
            let parsed = matter_parse(raw);
            let entries = parsed.entries;
            begins_with_delimiter(raw) && entries is Some && entry_at(entries, "title"@) == Some(
                ValueView::Text(title),
            )
                && entry_at(entries, "description"@) == Some(ValueView::Text(description))
                && entry_at(entries, "pubDate"@) == Some(ValueView::Text(date)) && entry_at(
                entries,
                "draft"@,
            ) == Some(ValueView::Flag(draft)) && parsed.content == body
        }) ==> decoded(raw) == (DocumentView {
            meta: FrontmatterView {
                title: Some(title),
                description: Some(description),
                pub_date: Some(date),
                draft: Some(draft),
            },
            body,
        }),
{
}

/// A text that does not begin with the delimiter, and any text of which the
/// parser reports no mapping, decodes to itself as body, with no field set.
pub proof fn decode_without_metadata_keeps_the_text(raw: Seq<char>)
    ensures
        !begins_with_delimiter(raw) || matter_parse(raw).entries is None ==> decoded(raw) == (
        DocumentView { meta: no_metadata(), body: raw }),
{
}

} // verus!
