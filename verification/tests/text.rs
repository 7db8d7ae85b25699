use ant_farmer::text::{
    char_is_whitespace, join, measure, push_left_justified, push_right_justified, push_spaces,
    trim,
};

#[test]
fn spaces_are_appended() {
    let mut out = "ab".to_string();

    push_spaces(&mut out, 3);
    push_spaces(&mut out, 0);

    assert_eq!(out, "ab   ");
}

#[test]
fn measure_counts_bytes() {
    assert_eq!(measure(""), 0);
    assert_eq!(measure("abc"), 3);
    assert_eq!(measure("é€"), 5);
}

#[test]
fn left_justify_pads_on_the_right() {
    let mut out = "[".to_string();

    push_left_justified(&mut out, "ab", 5);
    out.push(']');

    assert_eq!(out, "[ab   ]");
    assert_eq!(out, format!("[{:<5}]", "ab"));
}

#[test]
fn right_justify_pads_on_the_left() {
    let mut out = "[".to_string();

    push_right_justified(&mut out, "ab", 5);
    out.push(']');

    assert_eq!(out, "[   ab]");
    assert_eq!(out, format!("[{:>5}]", "ab"));
}

#[test]
fn justify_leaves_long_text_alone() {
    let mut left = String::new();
    let mut right = String::new();

    push_left_justified(&mut left, "abcdef", 3);
    push_right_justified(&mut right, "abcdef", 6);

    assert_eq!(left, "abcdef");
    assert_eq!(right, "abcdef");
}

#[test]
fn justify_counts_characters() {
    let mut left = String::new();
    let mut right = String::new();

    push_left_justified(&mut left, "é€", 4);
    push_right_justified(&mut right, "é€", 4);

    assert_eq!(left, "é€  ");
    assert_eq!(right, "  é€");
    assert_eq!(left, format!("{:<4}", "é€"));
    assert_eq!(right, format!("{:>4}", "é€"));
}

#[test]
fn join_puts_the_separator_between_items() {
    let items = vec!["a".to_string(), "b".to_string(), "c".to_string()];

    assert_eq!(join(&items, ", "), "a, b, c");
    assert_eq!(join(&items[..1].to_vec(), ", "), "a");
    assert_eq!(join(&Vec::new(), ", "), "");
}

#[test]
fn join_keeps_empty_items() {
    let items = vec![String::new(), "b".to_string(), String::new()];

    assert_eq!(join(&items, "-"), "-b-");
}

#[test]
fn whitespace_is_what_the_standard_library_says() {
    let mut code: u32 = 0;
    while code <= 0x10ffff {
        if let Some(c) = char::from_u32(code) {
            assert_eq!(char_is_whitespace(c), c.is_whitespace());
        }
        code += 1;
    }
}

#[test]
fn trim_cuts_both_ends() {
    assert_eq!(trim("  a b  "), "a b");
    assert_eq!(trim("a b"), "a b");
    assert_eq!(trim("\t\n a\u{3000}"), "a");
    assert_eq!(trim("x   "), "x");
    assert_eq!(trim("   x"), "x");
}

#[test]
fn trim_of_whitespace_is_empty() {
    assert_eq!(trim(""), "");
    assert_eq!(trim("   "), "");
    assert_eq!(trim(" \t\r\n"), "");
}

#[test]
fn trim_agrees_with_the_standard_library() {
    let samples = ["", " ", "a", " a", "a ", " é € ", "\u{2003}x\u{2003}y\u{2003}", "a\u{200b} "];
    for sample in samples {
        assert_eq!(trim(sample), sample.trim());
    }
}
