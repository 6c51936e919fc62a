use admin_core::slug::slugify;

#[test]
fn slugify_replaces_each_other_character_by_one_hyphen() {
    assert_eq!(slugify("Hello World!"), "hello-world-.md");
}

#[test]
fn slugify_keeps_runs_of_hyphens() {
    assert_eq!(slugify("a - b"), "a---b.md");
    assert_eq!(slugify("what?!  now"), "what----now.md");
}

#[test]
fn slugify_lowers_the_case() {
    assert_eq!(slugify("ABC"), "abc.md");
    assert_eq!(slugify("MiXeD123"), "mixed123.md");
}

#[test]
fn slugify_keeps_digits_and_letters_of_any_script() {
    assert_eq!(slugify("2024 in numbers"), "2024-in-numbers.md");
    assert_eq!(slugify("Éte à Paris"), "éte-à-paris.md");
    assert_eq!(slugify("日本語 の 記事"), "日本語-の-記事.md");
}

#[test]
fn slugify_replaces_separators_and_dots() {
    assert_eq!(slugify("a/b\\c.d_e"), "a-b-c-d-e.md");
}

#[test]
fn slugify_of_empty_title_is_the_extension() {
    assert_eq!(slugify(""), ".md");
}

#[test]
fn slugify_gives_the_same_name_for_the_same_title() {
    let title = "Same Title, Twice";
    assert_eq!(slugify(title), slugify(title));
    assert_eq!(slugify(title), "same-title--twice.md");
}

#[test]
fn slugify_gives_only_lowercase_alphanumerics_hyphens_and_the_extension() {
    for title in ["Hello World!", "Ünïcödé & Co.", "100% PURE", "tabs\tand\nlines"] {
        let name = slugify(title);
        let stem = name.strip_suffix(".md").unwrap();
        assert!(stem.chars().all(|c| c == '-' || (c.is_alphanumeric() && !c.is_uppercase())));
    }
}

#[test]
fn slugify_lets_two_titles_share_a_name() {
    assert_eq!(slugify("Hello, World"), slugify("hello  world"));
}

#[test]
fn slugify_keeps_a_capital_that_has_no_lowercase_form() {
    let bold_a = "\u{1D400}";
    assert!(bold_a.chars().all(|c| c.is_uppercase()));
    assert_eq!(slugify(bold_a), "\u{1D400}.md");
    assert_eq!(slugify("\u{1D400}B"), "\u{1D400}b.md");
}

#[test]
fn slugify_follows_the_length_of_the_lowercased_title() {
    assert_eq!("\u{130}".chars().count(), 1);
    assert_eq!(slugify("\u{130}"), "i-.md");
    assert_eq!(slugify("\u{130}stanbul"), "i-stanbul.md");
}
