use goose_tui::text::{
    contains_char, in_order, joined, owned, repeated, same, split_lines, starts_with,
};

fn lines(text: &str) -> Vec<String> {
    split_lines(text)
}

#[test]
fn lines_end_with_a_line_feed() {
    assert_eq!(lines("a\nb"), vec!["a", "b"]);
    assert_eq!(lines("a\nb\n"), vec!["a", "b"]);
    assert_eq!(lines("\n\n"), vec!["", ""]);
    assert_eq!(lines(""), Vec::<String>::new());
}

#[test]
fn a_carriage_return_belongs_to_the_line_ending_only_before_a_line_feed() {
    assert_eq!(lines("a\r\nb\r"), vec!["a", "b\r"]);
    assert_eq!(lines("a\r\r\n"), vec!["a\r"]);
    assert_eq!(lines("a\rb"), vec!["a\rb"]);
}

#[test]
fn lines_agree_with_those_of_std() {
    let samples: Vec<&str> = vec![
        "", "x", "\n", "\r\n", "x\ny\n", "x\r\ny", "x\n\r\ny\r", "ä\nö\r\n\nü", "\r", "\r\r\n\n",
    ];
    for sample in samples {
        let expected: Vec<String> = sample.lines().map(|l| l.to_string()).collect();
        assert_eq!(split_lines(sample), expected);
    }
}

#[test]
fn strings_are_compared_by_code_point() {
    assert!(in_order("/ext", "/ext"));
    assert!(in_order("/exit", "/ext"));
    assert!(!in_order("/ext", "/exit"));
    assert!(in_order("", "a"));
    assert!(!in_order("a", ""));
    assert!(in_order("/prompt", "/prompts"));
    assert!(in_order("Z", "a"));
    assert!(in_order("z", "ä"));
}

#[test]
fn the_order_agrees_with_that_of_std() {
    let words: Vec<&str> = vec!["", "/", "/a", "/ab", "/b", "é", "e", "\u{10000}", "\u{ffff}"];
    for a in &words {
        for b in &words {
            assert_eq!(in_order(a, b), a <= b);
        }
    }
}

#[test]
fn prefixes_are_found() {
    assert!(starts_with("/model", "/mo"));
    assert!(starts_with("/model", ""));
    assert!(starts_with("/model", "/model"));
    assert!(!starts_with("/model", "/models"));
    assert!(!starts_with("/model", "mo"));
}

#[test]
fn strings_are_put_together() {
    assert_eq!(joined("/", "clear"), "/clear");
    assert_eq!(owned("ready"), "ready");
    assert_eq!(repeated('─', 3), "───");
    assert_eq!(repeated('─', 0), "");
    assert!(same("ä", "ä"));
    assert!(!same("a", "ab"));
    assert!(!same("a", "b"));
    assert!(contains_char("/a b", ' '));
    assert!(!contains_char("/ab", ' '));
}
