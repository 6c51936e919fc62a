use admin_core::text::str_less;

#[test]
fn str_less_orders_by_first_difference() {
    assert!(str_less("a.md", "b.md"));
    assert!(!str_less("b.md", "a.md"));
    assert!(str_less("2024-01-01-x.md", "2024-01-02-a.md"));
}

#[test]
fn str_less_puts_a_prefix_first() {
    assert!(str_less("post", "post.md"));
    assert!(!str_less("post.md", "post"));
    assert!(str_less("", "a"));
}

#[test]
fn str_less_is_strict() {
    assert!(!str_less("same.md", "same.md"));
    assert!(!str_less("", ""));
}

#[test]
fn str_less_goes_by_code_point() {
    assert!(str_less("Z", "a"));
    assert!(str_less("z", "é"));
    assert!(str_less("é", "日"));
}

#[test]
fn str_less_agrees_with_the_order_of_strings() {
    let names = ["", "a", "ab", "b", "B", "é", "e\u{301}", "日本", "\u{10000}", "\u{ffff}"];
    for a in names {
        for b in names {
            assert_eq!(str_less(a, b), a < b);
        }
    }
}
