//! The post store: what reading, saving and deleting a post amount to.
//!
//! The content directory itself is never touched here. Callers hand in what
//! they read from it and carry out what is planned for it; [`Directory`]
//! says what the directory is taken to do.

use crate::clock::{is_stamp, today};
use crate::error::AdminError;
use crate::frontmatter::{
    decode, decode_gives_back_what_the_parser_does, decoded, encode, encoded, parser_gives_back,
};
use crate::listing::{
    is_listing_of, is_post_name, listing_is_unique, listing_of_empty_directory, summaries,
    summaries_push, FileEntryView,
};
use crate::post::{record_from, record_of, PostRecord, PostRecordView, PostSummaryView};
use crate::slug::{slug, slugify};
use vstd::prelude::*;

verus! {

/// What reading a post amounts to, given what the directory holds under its
/// name.
pub open spec fn read_post(filename: Seq<char>, text: Option<Seq<char>>) -> Result<
    PostRecordView,
    AdminError,
> {
    match text {
        Some(raw) => Ok(record_of(filename, decoded(raw))),
        None => Err(AdminError::NotFound),
    }
}

/// Reads one post: `text` is the text of the file called `filename`, or
/// `None` where there is no such file or it could not be read. A file that
/// was read always decodes; without one the post is reported as not found.
pub fn get_post(filename: String, text: Option<String>) -> (result: Result<PostRecord, AdminError>)
    ensures
        match result {
            Ok(record) => text is Some && read_post(filename@, Some(text.unwrap()@)) == Ok::<
                PostRecordView,
                AdminError,
            >(record@),
            Err(e) => text is None && e == AdminError::NotFound,
        },
{
    match text {
        Some(raw) => Ok(record_from(filename, decode(raw.as_str()))),
        None => Err(AdminError::NotFound),
    }
}

/// A file to be written: the outcome of planning a save.
#[derive(Debug, Clone, PartialEq, Eq)]
pub struct SavePlan {
    /// The name of the file, whether it exists or not.
    pub filename: String,
    /// The date that the post is stamped with.
    pub date: String,
    /// The text that the file is to hold.
    pub content: String,
}

/// The mathematical counterpart of [`SavePlan`].
pub struct SavePlanView {
    pub filename: Seq<char>,
    pub date: Seq<char>,
    pub content: Seq<char>,
}

impl View for SavePlan {
    type V = SavePlanView;

    open spec fn view(&self) -> SavePlanView {
        SavePlanView { filename: self.filename@, date: self.date@, content: self.content@ }
    }
}

/// The name under which a post is saved: its own where it has one that is
/// not empty, else the slug of its title.
pub open spec fn resolved_filename(record: PostRecordView) -> Seq<char> {
    match record.filename {
        Some(name) => if name.len() > 0 {
            name
        } else {
            slug(record.title)
        },
        None => slug(record.title),
    }
}

/// The file that saving `record` on `date` writes. The date of the record
/// itself and its tags do not enter.
pub open spec fn planned_save(record: PostRecordView, date: Seq<char>) -> SavePlanView {
    SavePlanView {
        filename: resolved_filename(record),
        date,
        content: encoded(record.title, record.description, date, record.draft, record.body),
    }
}

/// The name under which `record` is saved.
pub fn resolve_filename(record: &PostRecord) -> (filename: String)
    ensures
        filename@ == resolved_filename(record@),
{
    match &record.filename {
        Some(name) => {
            if name.as_str().is_empty() {
                slugify(record.title.as_str())
            } else {
                name.clone()
            }
        },
        None => slugify(record.title.as_str()),
    }
}

/// Plans the save of `record` as of `date`: the whole file is written anew
/// under the resolved name, with `date` as its date.
pub fn plan_save(record: &PostRecord, date: String) -> (plan: SavePlan)
    ensures
        plan@ == planned_save(record@, date@),
{
    let filename = resolve_filename(record);
    let content = encode(
        record.title.as_str(),
        record.description.as_str(),
        date.as_str(),
        record.draft,
        record.body.as_str(),
    );
    SavePlan { filename, date, content }
}

/// Plans the save of `record` as of today. The date is today's also where
/// the post exists already and has an earlier one. Which day that is the
/// clock says; the plan is the one for the date it carries, and that date is
/// a date stamp.
pub fn save_post(record: &PostRecord) -> (plan: SavePlan)
    ensures
        plan@ == planned_save(record@, plan.date@),
        is_stamp(plan.date@),
{
    plan_save(record, today())
}

/// How an operation on the content directory ended.
#[derive(Debug, Clone, Copy, PartialEq, Eq, Structural)]
pub enum Outcome {
    /// It was carried out.
    Done,
    /// It failed, for whatever reason.
    Failed,
}

/// The result of a save whose file was written, or could not be: the name
/// of the file, or a write error.
pub fn save_result(filename: String, written: Outcome) -> (result: Result<String, AdminError>)
    ensures
        match result {
            Ok(name) => written == Outcome::Done && name@ == filename@,
            Err(e) => written == Outcome::Failed && e == AdminError::WriteError,
        },
{
    match written {
        Outcome::Done => Ok(filename),
        Outcome::Failed => Err(AdminError::WriteError),
    }
}

/// The result of a deletion whose file was removed, or could not be. That
/// there was no such file is a write error like any other.
pub fn delete_post(removed: Outcome) -> (result: Result<(), AdminError>)
    ensures
        match result {
            Ok(_) => removed == Outcome::Done,
            Err(e) => removed == Outcome::Failed && e == AdminError::WriteError,
        },
{
    match removed {
        Outcome::Done => Ok(()),
        Outcome::Failed => Err(AdminError::WriteError),
    }
}

/// The files of a content directory that can be addressed by name, each
/// with its text.
pub type Directory = Map<Seq<char>, Seq<char>>;

/// What reading a file of the directory gives: its text, or nothing where
/// the directory has no file of that name.
pub open spec fn file_text(directory: Directory, filename: Seq<char>) -> Option<Seq<char>> {
    if directory.contains_key(filename) {
        Some(directory[filename])
    } else {
        None
    }
}

/// The directory after a planned save was carried out: the file is there
/// with the planned text, whatever was there before.
pub open spec fn after_save(directory: Directory, plan: SavePlanView) -> Directory {
    directory.insert(plan.filename, plan.content)
}

/// The directory after a file was removed.
pub open spec fn after_delete(directory: Directory, filename: Seq<char>) -> Directory {
    directory.remove(filename)
}

/// Reading a post that the directory does not hold fails with
/// [`AdminError::NotFound`], and reading one that it holds succeeds.
pub proof fn get_fails_exactly_on_absent(directory: Directory, filename: Seq<char>)
    ensures
        !directory.contains_key(filename) ==> read_post(filename, file_text(directory, filename))
            == Err::<PostRecordView, AdminError>(AdminError::NotFound),
        directory.contains_key(filename) ==> read_post(filename, file_text(directory, filename))
            is Ok,
{
}

/// A post that was saved and then deleted is not found: reading it under
/// the name that the save resolved fails with [`AdminError::NotFound`].
pub proof fn get_after_save_and_delete_fails(
    directory: Directory,
    record: PostRecordView,
    date: Seq<char>,
)
    ensures
        ({
            let plan = planned_save(record, date);
            let emptied = after_delete(after_save(directory, plan), plan.filename);
            read_post(plan.filename, file_text(emptied, plan.filename)) == Err::<
                PostRecordView,
                AdminError,
            >(AdminError::NotFound)
        }),
{
}

/// A post that was saved is found under the name that the save resolved,
/// and reads as what its written text decodes to. Saving twice under one
/// name leaves what was saved last.
pub proof fn get_after_save_reads_what_was_written(
    directory: Directory,
    record: PostRecordView,
    date: Seq<char>,
)
    ensures
        ({
            let plan = planned_save(record, date);
            read_post(plan.filename, file_text(after_save(directory, plan), plan.filename)) == Ok::<
                PostRecordView,
                AdminError,
            >(record_of(plan.filename, decoded(plan.content)))
        }),
{
}

/// A post that was saved reads as it was saved wherever the parser gives
/// back what was written for it: under the resolved name, with the date of
/// the save, with its title, description, draft mark and body, and without
/// tags. See [`parser_gives_back`] for where the parser does not.
pub proof fn get_after_save_gives_back_the_post(
    directory: Directory,
    record: PostRecordView,
    date: Seq<char>,
)
    ensures
        ({
            let plan = planned_save(record, date);
            parser_gives_back(record.title, record.description, date, record.draft, record.body)
                ==> read_post(
                plan.filename,
                file_text(after_save(directory, plan), plan.filename),
            ) == Ok::<PostRecordView, AdminError>(
                PostRecordView {
                    filename: Some(plan.filename),
                    title: record.title,
                    description: record.description,
                    draft: record.draft,
                    date,
                    tags: Seq::empty(),
                    body: record.body,
                },
            )
        }),
{
    decode_gives_back_what_the_parser_does(
        record.title,
        record.description,
        date,
        record.draft,
        record.body,
    );
}

/// A directory that holds one saved post and nothing else lists that post
/// alone, under the resolved name, with its title, its draft mark and the
/// date of the save, wherever the parser gives back what was written for
/// it. A post that was saved under a name that is not a post name is not
/// listed at all.
pub proof fn list_after_save_into_empty_directory(
    record: PostRecordView,
    date: Seq<char>,
    listing: Seq<PostSummaryView>,
)
    ensures
        ({
            let plan = planned_save(record, date);
            let saved = FileEntryView { name: plan.filename, content: Some(plan.content) };
            let found = summaries(seq![saved]);
            &&& is_listing_of(found, listing) ==> listing == found
            &&& !is_post_name(plan.filename) ==> found == Seq::<PostSummaryView>::empty()
            &&& is_post_name(plan.filename) && parser_gives_back(
                record.title,
                record.description,
                date,
                record.draft,
                record.body,
            ) ==> found == seq![
                PostSummaryView {
                    filename: plan.filename,
                    title: record.title,
                    draft: record.draft,
                    date,
                },
            ]
        }),
{
    let plan = planned_save(record, date);
    let saved = FileEntryView { name: plan.filename, content: Some(plan.content) };
    let found = summaries(seq![saved]);
    listing_of_empty_directory(listing);
    summaries_push(Seq::empty(), saved);
    assert(seq![saved] =~= Seq::<FileEntryView>::empty().push(saved));
    decode_gives_back_what_the_parser_does(
        record.title,
        record.description,
        date,
        record.draft,
        record.body,
    );
    if is_listing_of(found, listing) {
        assert(found.len() <= 1);
        assert(found.to_multiset() == found.to_multiset());
        assert(is_listing_of(found, found));
        listing_is_unique(found, found, listing);
    }
}

} // verus!
