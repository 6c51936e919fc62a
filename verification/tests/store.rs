use admin_core::error::AdminError;
use admin_core::frontmatter::encode;
use admin_core::post::{PostRecord, PostSummary};
use admin_core::listing::{is_post_file, list_posts, FileEntry};
use admin_core::store::{
    delete_post, get_post, plan_save, resolve_filename, save_post, save_result, Outcome, SavePlan,
};
use std::collections::HashMap;

fn file(name: &str, content: &str) -> FileEntry {
    FileEntry { name: name.to_string(), content: Some(content.to_string()) }
}

fn unreadable(name: &str) -> FileEntry {
    FileEntry { name: name.to_string(), content: None }
}

fn summary(filename: &str, title: &str, draft: bool, date: &str) -> PostSummary {
    PostSummary {
        filename: filename.to_string(),
        title: title.to_string(),
        draft,
        date: date.to_string(),
    }
}

fn new_post(title: &str) -> PostRecord {
    PostRecord {
        filename: None,
        title: title.to_string(),
        description: String::new(),
        draft: false,
        date: String::new(),
        tags: vec![],
        body: "Body".to_string(),
    }
}

fn names(listing: &[PostSummary]) -> Vec<String> {
    listing.iter().map(|p| p.filename.clone()).collect()
}

#[test]
fn is_post_file_goes_by_the_extension() {
    assert!(is_post_file("a.md"));
    assert!(is_post_file("2024-01-01-hello.md"));
    assert!(is_post_file("archive.tar.md"));
    assert!(is_post_file("..md"));
    assert!(!is_post_file("a.txt"));
    assert!(!is_post_file("a.mdx"));
    assert!(!is_post_file("a.MD"));
    assert!(!is_post_file("amd"));
    assert!(!is_post_file("a.md "));
    assert!(!is_post_file("a.md.bak"));
}

#[test]
fn is_post_file_wants_a_name_before_the_extension() {
    assert!(!is_post_file(".md"));
    assert!(!is_post_file("md"));
    assert!(!is_post_file(""));
    assert!(is_post_file("é.md"));
}

#[test]
fn list_of_empty_directory_is_empty() {
    assert_eq!(list_posts(&vec![]), vec![]);
}

#[test]
fn list_is_sorted_by_descending_filename() {
    let entries = vec![file("a.md", "A"), file("b.md", "B")];
    assert_eq!(names(&list_posts(&entries)), vec!["b.md", "a.md"]);
    let entries = vec![file("b.md", "B"), file("a.md", "A")];
    assert_eq!(names(&list_posts(&entries)), vec!["b.md", "a.md"]);
}

#[test]
fn list_shows_newest_date_prefix_first() {
    let entries = vec![
        file("2023-11-05-autumn.md", ""),
        file("2024-03-01-spring.md", ""),
        file("2022-01-10-winter.md", ""),
        file("2024-02-29-leap.md", ""),
        file("2023-11-05-another.md", ""),
    ];
    assert_eq!(
        names(&list_posts(&entries)),
        vec![
            "2024-03-01-spring.md",
            "2024-02-29-leap.md",
            "2023-11-05-autumn.md",
            "2023-11-05-another.md",
            "2022-01-10-winter.md",
        ]
    );
}

#[test]
fn list_reads_title_draft_and_date() {
    let entries = vec![
        file("one.md", &encode("First", "d", "2024-01-02", true, "Body")),
        file("two.md", &encode("Second", "", "2023-07-08", false, "")),
    ];
    assert_eq!(
        list_posts(&entries),
        vec![
            summary("two.md", "Second", false, "2023-07-08"),
            summary("one.md", "First", true, "2024-01-02"),
        ]
    );
}

#[test]
fn list_of_file_without_front_matter_uses_the_defaults() {
    let entries = vec![file("plain.md", "# Heading\n\nJust text, no delimiter.\n")];
    assert_eq!(list_posts(&entries), vec![summary("plain.md", "plain.md", false, "Unknown")]);
}

#[test]
fn list_fills_in_each_missing_field() {
    let entries = vec![
        file("c.md", "---\ntitle: Only title\n---\n"),
        file("b.md", "---\ndraft: true\n---\n"),
        file("a.md", "---\npubDate: 2024-06-07\n---\n"),
    ];
    assert_eq!(
        list_posts(&entries),
        vec![
            summary("c.md", "Only title", false, "Unknown"),
            summary("b.md", "b.md", true, "Unknown"),
            summary("a.md", "a.md", false, "2024-06-07"),
        ]
    );
}

#[test]
fn list_skips_files_that_are_no_posts() {
    let entries = vec![
        file("notes.txt", "x"),
        file("post.md", "x"),
        file(".md", "x"),
        file("image.png", "x"),
        file("README", "x"),
    ];
    assert_eq!(names(&list_posts(&entries)), vec!["post.md"]);
}

#[test]
fn list_skips_files_that_could_not_be_read() {
    let entries = vec![file("a.md", "A"), unreadable("b.md"), file("c.md", "C")];
    assert_eq!(names(&list_posts(&entries)), vec!["c.md", "a.md"]);
}

#[test]
fn list_keeps_files_of_one_name_in_the_order_found() {
    let entries = vec![
        file("same.md", "---\ntitle: from the first directory\n---\n"),
        file("z.md", ""),
        file("same.md", "---\ntitle: from the second directory\n---\n"),
        file("a.md", ""),
        file("same.md", "---\ntitle: from the third directory\n---\n"),
    ];
    let listing = list_posts(&entries);
    assert_eq!(names(&listing), vec!["z.md", "same.md", "same.md", "same.md", "a.md"]);
    assert_eq!(listing[1].title, "from the first directory");
    assert_eq!(listing[2].title, "from the second directory");
    assert_eq!(listing[3].title, "from the third directory");
}

#[test]
fn get_of_missing_file_is_not_found() {
    assert_eq!(get_post("nothing.md".to_string(), None), Err(AdminError::NotFound));
}

#[test]
fn get_reads_the_whole_record() {
    let raw = encode("Title", "About", "2024-05-06", true, "The body.");
    let record = get_post("t.md".to_string(), Some(raw)).unwrap();
    assert_eq!(
        record,
        PostRecord {
            filename: Some("t.md".to_string()),
            title: "Title".to_string(),
            description: "About".to_string(),
            draft: true,
            date: "2024-05-06".to_string(),
            tags: vec![],
            body: "The body.".to_string(),
        }
    );
}

#[test]
fn get_of_file_without_front_matter_uses_the_defaults() {
    let record = get_post("plain.md".to_string(), Some("Only text".to_string())).unwrap();
    assert_eq!(
        record,
        PostRecord {
            filename: Some("plain.md".to_string()),
            title: "plain.md".to_string(),
            description: String::new(),
            draft: false,
            date: "Unknown".to_string(),
            tags: vec![],
            body: "Only text".to_string(),
        }
    );
}

#[test]
fn get_drops_tags_of_the_file() {
    let raw = "---\ntitle: T\ntags:\n  - rust\n  - blog\n---\nBody".to_string();
    let record = get_post("t.md".to_string(), Some(raw)).unwrap();
    assert_eq!(record.tags, Vec::<String>::new());
    assert_eq!(record.title, "T");
}

#[test]
fn resolve_filename_keeps_a_given_name() {
    let mut record = new_post("Some Title");
    record.filename = Some("kept-as-is.md".to_string());
    assert_eq!(resolve_filename(&record), "kept-as-is.md");
    record.filename = Some("no extension".to_string());
    assert_eq!(resolve_filename(&record), "no extension");
}

#[test]
fn resolve_filename_derives_a_slug_without_a_name() {
    let mut record = new_post("Some Title");
    assert_eq!(resolve_filename(&record), "some-title.md");
    record.filename = Some(String::new());
    assert_eq!(resolve_filename(&record), "some-title.md");
}

#[test]
fn plan_save_encodes_with_the_given_date() {
    let mut record = new_post("Hello");
    record.description = "About".to_string();
    record.draft = true;
    record.date = "1990-01-01".to_string();
    record.tags = vec!["dropped".to_string()];
    let plan = plan_save(&record, "2024-08-09".to_string());
    assert_eq!(
        plan,
        SavePlan {
            filename: "hello.md".to_string(),
            date: "2024-08-09".to_string(),
            content:
                "---\ntitle: \"Hello\"\ndescription: \"About\"\npubDate: 2024-08-09\ndraft: true\n---\n\nBody"
                    .to_string(),
        }
    );
}

#[test]
fn save_stamps_one_date() {
    let record = new_post("Stamped");
    let plan = save_post(&record);
    assert_eq!(plan.filename, "stamped.md");
    assert_eq!(plan.content, encode("Stamped", "", &plan.date, false, "Body"));
    assert_eq!(plan, plan_save(&record, plan.date.clone()));
    assert!(plan.date.chars().count() >= 10);
    assert!(plan.date.chars().all(|c| c.is_ascii_digit() || c == '-' || c == '+'));
}

#[test]
fn save_stamps_year_month_and_day() {
    let date = save_post(&new_post("Stamped")).date;
    let parts: Vec<&str> = date.rsplitn(3, '-').collect();
    assert_eq!(parts.len(), 3);
    assert_eq!(parts[0].len(), 2);
    assert_eq!(parts[1].len(), 2);
    assert!(parts[2].len() >= 4);
    let day: u32 = parts[0].parse().unwrap();
    let month: u32 = parts[1].parse().unwrap();
    assert!((1..=31).contains(&day));
    assert!((1..=12).contains(&month));
}

#[test]
fn save_without_filename_then_get() {
    let record = new_post("Hello World!");
    let plan = plan_save(&record, "2024-01-01".to_string());
    assert_eq!(plan.filename, "hello-world-.md");
    assert_eq!(save_result(plan.filename.clone(), Outcome::Done), Ok("hello-world-.md".to_string()));
    let read = get_post(plan.filename.clone(), Some(plan.content.clone())).unwrap();
    assert_eq!(read.filename, Some("hello-world-.md".to_string()));
    assert_eq!(read.title, "Hello World!");
    assert!(!read.draft);
    assert_eq!(read.description, "");
    assert_eq!(read.tags, Vec::<String>::new());
    assert_eq!(read.date, "2024-01-01");
    assert_eq!(read.body, "Body");
}

#[test]
fn save_then_delete_then_get_is_not_found() {
    let mut directory: HashMap<String, String> = HashMap::new();
    let plan = plan_save(&new_post("Short lived"), "2024-01-01".to_string());
    directory.insert(plan.filename.clone(), plan.content.clone());
    let saved = save_result(plan.filename.clone(), Outcome::Done).unwrap();
    assert!(get_post(saved.clone(), directory.get(&saved).cloned()).is_ok());
    let removed = match directory.remove(&saved) {
        Some(_) => Outcome::Done,
        None => Outcome::Failed,
    };
    assert_eq!(delete_post(removed), Ok(()));
    assert_eq!(get_post(saved.clone(), directory.get(&saved).cloned()), Err(AdminError::NotFound));
}

#[test]
fn save_twice_under_one_name_keeps_the_last() {
    let mut directory: HashMap<String, String> = HashMap::new();
    let mut first = new_post("Same title");
    first.body = "first".to_string();
    let mut second = new_post("same TITLE");
    second.body = "second".to_string();
    for record in [&first, &second] {
        let plan = plan_save(record, "2024-01-01".to_string());
        directory.insert(plan.filename, plan.content);
    }
    assert_eq!(directory.len(), 1);
    let read = get_post("same-title.md".to_string(), directory.get("same-title.md").cloned());
    assert_eq!(read.unwrap().body, "second");
}

#[test]
fn save_that_could_not_write_is_a_write_error() {
    assert_eq!(save_result("a.md".to_string(), Outcome::Failed), Err(AdminError::WriteError));
}

#[test]
fn delete_that_could_not_remove_is_a_write_error() {
    assert_eq!(delete_post(Outcome::Failed), Err(AdminError::WriteError));
}

#[test]
fn delete_of_removed_file_succeeds() {
    assert_eq!(delete_post(Outcome::Done), Ok(()));
}
