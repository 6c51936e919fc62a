//! Post records and summaries, and how the fields that a file leaves out are
//! filled in.

use crate::frontmatter::{Document, DocumentView};
use vstd::prelude::*;
use vstd::string::StringExecFns;

verus! {

/// One line of a listing: what is shown of a post without its body.
#[derive(Debug, Clone, PartialEq, Eq)]
pub struct PostSummary {
    pub filename: String,
    pub title: String,
    pub draft: bool,
    pub date: String,
}

/// The mathematical counterpart of [`PostSummary`].
pub struct PostSummaryView {
    pub filename: Seq<char>,
    pub title: Seq<char>,
    pub draft: bool,
    pub date: Seq<char>,
}

impl View for PostSummary {
    type V = PostSummaryView;

    open spec fn view(&self) -> PostSummaryView {
        PostSummaryView {
            filename: self.filename@,
            title: self.title@,
            draft: self.draft,
            date: self.date@,
        }
    }
}

impl DeepView for PostSummary {
    type V = PostSummaryView;

    open spec fn deep_view(&self) -> PostSummaryView {
        self@
    }
}

/// A post in full. `filename` is absent only in a post that is about to be
/// saved for the first time.
#[derive(Debug, Clone, PartialEq, Eq)]
pub struct PostRecord {
    pub filename: Option<String>,
    pub title: String,
    pub description: String,
    pub draft: bool,
    pub date: String,
    pub tags: Vec<String>,
    pub body: String,
}

/// The mathematical counterpart of [`PostRecord`].
pub struct PostRecordView {
    pub filename: Option<Seq<char>>,
    pub title: Seq<char>,
    pub description: Seq<char>,
    pub draft: bool,
    pub date: Seq<char>,
    pub tags: Seq<Seq<char>>,
    pub body: Seq<char>,
}

impl View for PostRecord {
    type V = PostRecordView;

    open spec fn view(&self) -> PostRecordView {
        PostRecordView {
            filename: match self.filename {
                Some(name) => Some(name@),
                None => None,
            },
            title: self.title@,
            description: self.description@,
            draft: self.draft,
            date: self.date@,
            tags: self.tags.deep_view(),
            body: self.body@,
        }
    }
}

/// The date shown for a post whose file states none.
pub open spec fn unknown_date() -> Seq<char> {
    "Unknown"@
}

/// The title of a post: the one its file states, else its file name.
pub open spec fn title_or_filename(title: Option<Seq<char>>, filename: Seq<char>) -> Seq<char> {
    match title {
        Some(t) => t,
        None => filename,
    }
}

/// The date of a post: the one its file states, else [`unknown_date`].
pub open spec fn date_or_unknown(date: Option<Seq<char>>) -> Seq<char> {
    match date {
        Some(d) => d,
        None => unknown_date(),
    }
}

/// The draft mark of a post: the one its file states, else `false`.
pub open spec fn draft_or_published(draft: Option<bool>) -> bool {
    match draft {
        Some(d) => d,
        None => false,
    }
}

/// The description of a post: the one its file states, else the empty text.
pub open spec fn description_or_empty(description: Option<Seq<char>>) -> Seq<char> {
    match description {
        Some(d) => d,
        None => Seq::empty(),
    }
}

/// The summary of the post stored as `filename` with the decoded content
/// `doc`.
pub open spec fn summary_of(filename: Seq<char>, doc: DocumentView) -> PostSummaryView {
    PostSummaryView {
        filename,
        title: title_or_filename(doc.meta.title, filename),
        draft: draft_or_published(doc.meta.draft),
        date: date_or_unknown(doc.meta.pub_date),
    }
}

/// The record of the post stored as `filename` with the decoded content
/// `doc`. Tags are not read from the file: a stored post has none.
pub open spec fn record_of(filename: Seq<char>, doc: DocumentView) -> PostRecordView {
    PostRecordView {
        filename: Some(filename),
        title: title_or_filename(doc.meta.title, filename),
        description: description_or_empty(doc.meta.description),
        draft: draft_or_published(doc.meta.draft),
        date: date_or_unknown(doc.meta.pub_date),
        tags: Seq::empty(),
        body: doc.body,
    }
}

/// Summarises a decoded post, filling in what its file leaves out.
pub fn summarize(filename: String, doc: Document) -> (summary: PostSummary)
    ensures
        summary@ == summary_of(filename@, doc@),
{
    let title = match doc.meta.title {
        Some(t) => t,
        None => filename.clone(),
    };
    let draft = match doc.meta.draft {
        Some(d) => d,
        None => false,
    };
    let date = match doc.meta.pub_date {
        Some(d) => d,
        None => String::from_str("Unknown"),
    };
    PostSummary { filename, title, draft, date }
}

/// Builds the full record of a decoded post, filling in what its file leaves
/// out.
pub fn record_from(filename: String, doc: Document) -> (record: PostRecord)
    ensures
        record@ == record_of(filename@, doc@),
{
    let title = match doc.meta.title {
        Some(t) => t,
        None => filename.clone(),
    };
    let description = match doc.meta.description {
        Some(d) => d,
        None => String::new(),
    };
    let draft = match doc.meta.draft {
        Some(d) => d,
        None => false,
    };
    let date = match doc.meta.pub_date {
        Some(d) => d,
        None => String::from_str("Unknown"),
    };
    let tags: Vec<String> = Vec::new();
    assert(tags.deep_view() =~= Seq::<Seq<char>>::empty());
    PostRecord { filename: Some(filename), title, description, draft, date, tags, body: doc.body }
}

} // verus!
