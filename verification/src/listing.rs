//! The listing of a content directory: which of its files are posts, and in
//! what order their summaries are shown.

use crate::frontmatter::{begins_with_delimiter, decode, decoded};
use crate::matter::matter_parse;
use crate::post::{summarize, summary_of, unknown_date, PostSummary, PostSummaryView};
use crate::slug::{lowercase, post_extension, slug};
use crate::text::{
    lex_less, lex_less_asymmetric, lex_less_before_not_less, lex_less_irreflexive, lex_less_total,
    str_less,
};
use vstd::prelude::*;

verus! {

/// A file found in the content directory, at any depth: its name without
/// the directories that lead to it, and its text if it could be read.
#[derive(Debug, Clone, PartialEq, Eq)]
pub struct FileEntry {
    pub name: String,
    pub content: Option<String>,
}

/// The mathematical counterpart of [`FileEntry`].
pub struct FileEntryView {
    pub name: Seq<char>,
    pub content: Option<Seq<char>>,
}

impl View for FileEntry {
    type V = FileEntryView;

    open spec fn view(&self) -> FileEntryView {
        FileEntryView {
            name: self.name@,
            content: match self.content {
                Some(text) => Some(text@),
                None => None,
            },
        }
    }
}

impl DeepView for FileEntry {
    type V = FileEntryView;

    open spec fn deep_view(&self) -> FileEntryView {
        self@
    }
}

/// Whether a file name is that of a post: it ends in `.md` and has at least
/// one character before that.
pub open spec fn is_post_name(name: Seq<char>) -> bool {
    name.len() > 3 && name.subrange(name.len() - 3, name.len() as int) == post_extension()
}

/// Whether a file of the directory appears in the listing: it is a post
/// file and could be read.
pub open spec fn is_listed(entry: FileEntryView) -> bool {
    is_post_name(entry.name) && entry.content is Some
}

/// The summary of a listed file.
pub open spec fn entry_summary(entry: FileEntryView) -> PostSummaryView {
    summary_of(entry.name, decoded(entry.content.unwrap()))
}

/// The summaries of the listed files of a directory, in the order in which
/// the files were found.
pub open spec fn summaries(entries: Seq<FileEntryView>) -> Seq<PostSummaryView> {
    entries.filter(|e: FileEntryView| is_listed(e)).map_values(|e: FileEntryView| entry_summary(e))
}

/// No summary is followed by one with a greater file name.
pub open spec fn is_descending(listing: Seq<PostSummaryView>) -> bool {
    forall|i: int, j: int|
        0 <= i < j < listing.len() ==> !lex_less(
            #[trigger] listing[i].filename,
            #[trigger] listing[j].filename,
        )
}

/// The summaries that carry a given file name, in their order.
pub open spec fn with_name(listing: Seq<PostSummaryView>, name: Seq<char>) -> Seq<
    PostSummaryView,
> {
    listing.filter(|p: PostSummaryView| p.filename == name)
}

/// `listing` is `found` sorted by descending file name: it is in descending
/// order, it holds the summaries of `found`, each as often, and under every
/// file name it holds them in the order of `found`.
pub open spec fn is_listing_of(
    found: Seq<PostSummaryView>,
    listing: Seq<PostSummaryView>,
) -> bool {
    &&& is_descending(listing)
    &&& listing.to_multiset() == found.to_multiset()
    &&& forall|name: Seq<char>| #[trigger] with_name(listing, name) == with_name(found, name)
}

/// Whether `name` is the name of a post file.
pub fn is_post_file(name: &str) -> (yes: bool)
    ensures
        yes == is_post_name(name@),
{
    let mut seen: usize = 0;
    let mut third_last = ' ';
    let mut second_last = ' ';
    let mut last = ' ';
    for c in it: name.chars()
        invariant
            it.seq() == name@,
            seen == if it.index() < 4 { it.index() } else { 4 },
            it.index() >= 1 ==> last == name@[it.index() - 1],
            it.index() >= 2 ==> second_last == name@[it.index() - 2],
            it.index() >= 3 ==> third_last == name@[it.index() - 3],
    {
        third_last = second_last;
        second_last = last;
        last = c;
        if seen < 4 {
            seen = seen + 1;
        }
    }
    let yes = seen == 4 && third_last == '.' && second_last == 'm' && last == 'd';
    proof {
        if name@.len() > 3 {
            let ending = name@.subrange(name@.len() - 3, name@.len() as int);
            assert(ending[0] == third_last && ending[1] == second_last && ending[2] == last);
            if yes {
                assert(ending =~= post_extension());
            }
        }
    }
    yes
}

/// Puts `summary` into a descending listing, behind every summary that does
/// not come before it.
fn insert_summary(
    listing: &mut Vec<PostSummary>,
    summary: PostSummary,
    Ghost(found): Ghost<Seq<PostSummaryView>>,
)
    requires
        is_listing_of(found, old(listing).deep_view()),
    ensures
        is_listing_of(found.push(summary@), final(listing).deep_view()),
{
    let ghost before = listing.deep_view();
    let mut at: usize = listing.len();
    while at > 0 && str_less(listing[at - 1].filename.as_str(), summary.filename.as_str())
        invariant
            at <= listing.len(),
            listing.deep_view() == before,
            forall|k: int|
                at <= k < before.len() ==> lex_less(
                    #[trigger] before[k].filename,
                    summary@.filename,
                ),
        decreases at,
    {
        at = at - 1;
    }
    listing.insert(at, summary);
    proof {
        let after = listing.deep_view();
        let new = summary@;
        assert(after =~= before.insert(at as int, new));
        // the order is kept
        assert forall|i: int, j: int| 0 <= i < j < after.len() implies !lex_less(
            #[trigger] after[i].filename,
            #[trigger] after[j].filename,
        ) by {
            if j == at {
                // everything before the new summary does not come before it
                if lex_less(after[i].filename, new.filename) {
                    lex_less_before_not_less(
                        before[i].filename,
                        before[at - 1].filename,
                        new.filename,
                    );
                }
            } else if i == at {
                // and everything behind it comes before it
                lex_less_asymmetric(before[j - 1].filename, new.filename);
            }
        }
        // the same summaries
        vstd::seq_lib::to_multiset_insert(before, at as int, new);
        vstd::seq_lib::to_multiset_build(found, new);
        // under every name the same summaries in the same order
        assert forall|name: Seq<char>| #[trigger]
            with_name(after, name) == with_name(found.push(new), name) by {
            let named = |p: PostSummaryView| p.filename == name;
            let head = before.subrange(0, at as int);
            let tail = before.subrange(at as int, before.len() as int);
            assert(before =~= head + tail);
            Seq::filter_distributes_over_add(head, tail, named);
            Seq::filter_distributes_over_add(head.push(new), tail, named);
            head.lemma_filter_push(new, named);
            found.lemma_filter_push(new, named);
            assert(with_name(before, name) == with_name(found, name));
            if name == new.filename {
                assert forall|k: int| 0 <= k < tail.len() implies !named(#[trigger] tail[k]) by {
                    lex_less_irreflexive(new.filename);
                }
                tail.lemma_all_neg_filter_empty(named);
                assert(head.filter(named).push(new) + tail.filter(named) =~= head.filter(
                    named,
                ).push(new));
            }
        }
    }
}

/// Listing one more file adds its summary if the file is listed, and nothing
/// otherwise.
pub proof fn summaries_push(entries: Seq<FileEntryView>, entry: FileEntryView)
    ensures
        summaries(entries.push(entry)) == if is_listed(entry) {
            summaries(entries).push(entry_summary(entry))
        } else {
            summaries(entries)
        },
{
    let listed = |e: FileEntryView| is_listed(e);
    let summary = |e: FileEntryView| entry_summary(e);
    entries.lemma_filter_push(entry, listed);
    if is_listed(entry) {
        entries.filter(listed).lemma_push_map_commute(summary, entry);
    }
}

/// Lists the posts among the files of a content directory: every file whose
/// name is that of a post and whose text could be read, each with the title,
/// draft mark and date that its front matter states or the defaults for
/// them, sorted by descending file name. Files of the same name keep the
/// order in which they were found.
pub fn list_posts(entries: &Vec<FileEntry>) -> (listing: Vec<PostSummary>)
    ensures
        is_listing_of(summaries(entries.deep_view()), listing.deep_view()),
{
    let mut listing: Vec<PostSummary> = Vec::new();
    let mut i: usize = 0;
    proof {
        let none = entries.deep_view().take(0);
        none.lemma_filter_len(|e: FileEntryView| is_listed(e));
        assert(summaries(none) =~= Seq::empty());
        assert(listing.deep_view() =~= Seq::empty());
    }
    while i < entries.len()
        invariant
            i <= entries.len(),
            is_listing_of(summaries(entries.deep_view().take(i as int)), listing.deep_view()),
        decreases entries.len() - i,
    {
        let entry = &entries[i];
        let ghost seen = entries.deep_view().take(i as int);
        proof {
            assert(entries.deep_view().take(i + 1) =~= seen.push(entry@));
            summaries_push(seen, entry@);
        }
        if is_post_file(entry.name.as_str()) {
            match &entry.content {
                Some(raw) => {
                    let summary = summarize(entry.name.clone(), decode(raw.as_str()));
                    insert_summary(&mut listing, summary, Ghost(summaries(seen)));
                },
                None => {},
            }
        }
        i = i + 1;
    }
    proof {
        assert(entries.deep_view().take(entries.len() as int) =~= entries.deep_view());
    }
    listing
}

/// A listed file whose text does not begin with the delimiter, and any of
/// whose text the parser reports no mapping, is summarised with its file
/// name as title, as published, and with the date unknown.
pub proof fn summary_without_metadata(entry: FileEntryView)
    ensures
        is_listed(entry) && (!begins_with_delimiter(entry.content.unwrap()) || matter_parse(
            entry.content.unwrap(),
        ).entries is None) ==> entry_summary(entry) == (PostSummaryView {
            filename: entry.name,
            title: entry.name,
            draft: false,
            date: unknown_date(),
        }),
{
}

/// A directory without files has an empty listing.
pub proof fn listing_of_empty_directory(listing: Seq<PostSummaryView>)
    ensures
        summaries(Seq::empty()) == Seq::<PostSummaryView>::empty(),
        is_listing_of(summaries(Seq::empty()), listing) ==> listing == Seq::<
            PostSummaryView,
        >::empty(),
{
    let none = Seq::<FileEntryView>::empty();
    none.lemma_filter_len(|e: FileEntryView| is_listed(e));
    assert(summaries(none) =~= Seq::empty());
    if is_listing_of(summaries(none), listing) {
        listing.to_multiset_ensures();
        summaries(none).to_multiset_ensures();
    }
}

/// The last summary of a listing closes the run of summaries under its
/// name, and leaving it out shortens only that run.
proof fn with_name_drop_last(listing: Seq<PostSummaryView>, name: Seq<char>)
    requires
        listing.len() > 0,
    ensures
        with_name(listing, name) == if listing.last().filename == name {
            with_name(listing.drop_last(), name).push(listing.last())
        } else {
            with_name(listing.drop_last(), name)
        },
{
    reveal(Seq::filter);
}

/// What is left of a listing without its last summary is a listing of
/// itself and of every sequence that it is a listing of.
proof fn listing_drop_last(found: Seq<PostSummaryView>, listing: Seq<PostSummaryView>)
    requires
        listing.len() > 0,
        found.len() > 0,
        found.last() == listing.last(),
        is_listing_of(found, listing),
    ensures
        is_listing_of(found.drop_last(), listing.drop_last()),
{
    let short = listing.drop_last();
    assert forall|i: int, j: int| 0 <= i < j < short.len() implies !lex_less(
        #[trigger] short[i].filename,
        #[trigger] short[j].filename,
    ) by {
        assert(!lex_less(listing[i].filename, listing[j].filename));
    }
    assert(listing =~= short.push(listing.last()));
    assert(found =~= found.drop_last().push(found.last()));
    vstd::seq_lib::to_multiset_build(short, listing.last());
    vstd::seq_lib::to_multiset_build(found.drop_last(), found.last());
    assert(short.to_multiset() =~= listing.to_multiset().remove(listing.last()));
    assert(found.drop_last().to_multiset() =~= found.to_multiset().remove(found.last()));
    assert forall|name: Seq<char>| #[trigger]
        with_name(short, name) == with_name(found.drop_last(), name) by {
        with_name_drop_last(listing, name);
        with_name_drop_last(found, name);
        if listing.last().filename == name {
            assert(with_name(found.drop_last(), name) =~= with_name(found, name).drop_last());
        }
    }
}

/// The summaries of a directory have one listing only: the order of a
/// listing is settled down to the last summary.
pub proof fn listing_is_unique(
    found: Seq<PostSummaryView>,
    first: Seq<PostSummaryView>,
    second: Seq<PostSummaryView>,
)
    requires
        is_listing_of(found, first),
        is_listing_of(found, second),
    ensures
        first == second,
    decreases first.len(),
{
    vstd::seq_lib::to_multiset_len(first);
    vstd::seq_lib::to_multiset_len(second);
    vstd::seq_lib::to_multiset_len(found);
    if first.len() > 0 {
        let a = first.last();
        let b = second.last();
        // each closing summary occurs in the other listing
        vstd::seq_lib::to_multiset_contains(first, a);
        vstd::seq_lib::to_multiset_contains(second, a);
        vstd::seq_lib::to_multiset_contains(first, b);
        vstd::seq_lib::to_multiset_contains(second, b);
        assert(first.contains(a));
        assert(second.contains(b));
        let k = choose|k: int| 0 <= k < second.len() && second[k] == a;
        let l = choose|l: int| 0 <= l < first.len() && first[l] == b;
        // so neither name comes before the other
        assert(!lex_less(a.filename, b.filename)) by {
            if k < second.len() - 1 {
                assert(!lex_less(second[k].filename, second[second.len() - 1].filename));
            } else {
                lex_less_irreflexive(a.filename);
            }
        }
        assert(!lex_less(b.filename, a.filename)) by {
            if l < first.len() - 1 {
                assert(!lex_less(first[l].filename, first[first.len() - 1].filename));
            } else {
                lex_less_irreflexive(b.filename);
            }
        }
        lex_less_total(a.filename, b.filename);
        // and both close the run under that name
        with_name_drop_last(first, a.filename);
        with_name_drop_last(second, a.filename);
        assert(with_name(first, a.filename) == with_name(found, a.filename));
        assert(with_name(second, a.filename) == with_name(found, a.filename));
        assert(with_name(first, a.filename).last() == a);
        assert(with_name(second, a.filename).last() == b);
        // what stands before them is one listing again
        assert(is_listing_of(first, second));
        listing_drop_last(first, first);
        listing_drop_last(first, second);
        listing_is_unique(first.drop_last(), first.drop_last(), second.drop_last());
        assert(first =~= first.drop_last().push(a));
        assert(second =~= second.drop_last().push(b));
    } else {
        assert(first =~= second);
    }
}

/// The slug of a title is the name of a post file, unless the lowercased
/// title is empty: then the slug is the bare extension, and a file of that
/// name is not listed.
pub proof fn slug_is_post_name(title: Seq<char>)
    ensures
        is_post_name(slug(title)) <==> lowercase(title).len() > 0,
{
    let name = slug(title);
    if lowercase(title).len() > 0 {
        assert(name.subrange(name.len() - 3, name.len() as int) =~= post_extension());
    }
}

} // verus!
