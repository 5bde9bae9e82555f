use pmrapp::path::{join_from, normalize_path, split_path};
use pmrapp::text::{push_chars, push_decimal, same_text, to_chars};

fn decimal(n: i64) -> String {
    let mut out = String::new();
    push_decimal(&mut out, n);
    out
}

fn strings(parts: &[&str]) -> Vec<String> {
    parts.iter().map(|p| p.to_string()).collect()
}

#[test]
fn split_drops_empty_segments() {
    assert_eq!(split_path(""), strings(&[]));
    assert_eq!(split_path("/"), strings(&[]));
    assert_eq!(split_path("///"), strings(&[]));
    assert_eq!(split_path("a"), strings(&["a"]));
    assert_eq!(split_path("a/b"), strings(&["a", "b"]));
    assert_eq!(split_path("/a//b/"), strings(&["a", "b"]));
    assert_eq!(split_path("models/ODE.cellml"), strings(&["models", "ODE.cellml"]));
    assert_eq!(split_path("../x/."), strings(&["..", "x", "."]));
    assert_eq!(split_path("ä/💾"), strings(&["ä", "💾"]));
}

#[test]
fn join_puts_one_slash_between_segments() {
    let segments = strings(&["a", "bc", "d"]);
    assert_eq!(join_from(&segments, 0), "a/bc/d");
    assert_eq!(join_from(&segments, 1), "bc/d");
    assert_eq!(join_from(&segments, 2), "d");
    assert_eq!(join_from(&segments, 3), "");
    assert_eq!(join_from(&segments, 4), "");
    assert_eq!(join_from(&segments, usize::MAX), "");
    assert_eq!(join_from(&strings(&[]), 0), "");
}

#[test]
fn split_of_a_joined_path_gives_the_segments_back() {
    for parts in [&["a"][..], &["a", "b"], &["models", "ODE.cellml"], &["x", "..", "y"]] {
        let segments = strings(parts);
        assert_eq!(split_path(&join_from(&segments, 0)), segments);
    }
}

#[test]
fn split_distributes_over_a_slash() {
    for (before, after) in [("a/b", "c"), ("", "c"), ("a/", "/c/d"), ("a", "")] {
        let mut expected = split_path(before);
        expected.extend(split_path(after));
        assert_eq!(split_path(&format!("{}/{}", before, after)), expected);
    }
}

#[test]
fn normal_forms() {
    for (path, file, directory) in [
        ("", "", ""),
        ("/", "", ""),
        ("a", "a", "a/"),
        ("/a/", "a", "a/"),
        ("a//b", "a/b", "a/b/"),
        ("//a/b//", "a/b", "a/b/"),
    ] {
        assert_eq!(normalize_path(path, false), file);
        assert_eq!(normalize_path(path, true), directory);
        assert_eq!(normalize_path(&normalize_path(path, false), false), file);
        assert_eq!(normalize_path(&normalize_path(path, true), true), directory);
        assert!(!normalize_path(path, true).starts_with('/'));
    }
}

#[test]
fn decimal_renders_as_the_standard_library_does() {
    for n in [0i64, 1, 9, 10, 11, 99, 100, 101, 12345, -1, -9, -10, -12345, i64::MAX, i64::MIN, i64::MIN + 1] {
        assert_eq!(decimal(n), n.to_string());
    }
    assert_eq!(decimal(-42), "-42");
    assert_eq!(decimal(i64::MIN), "-9223372036854775808");
}

#[test]
fn characters_go_there_and_back() {
    for text in ["", "a", "models/ODE.cellml", "ä💾"] {
        let mut back = String::new();
        push_chars(&mut back, &to_chars(text));
        assert_eq!(back, text);
        assert_eq!(to_chars(text), text.chars().collect::<Vec<char>>());
    }
}

#[test]
fn texts_are_compared_by_their_characters() {
    assert!(same_text("", ""));
    assert!(same_text("tree", "tree"));
    assert!(!same_text("tree", "trees"));
    assert!(!same_text("tree", "tred"));
    assert!(!same_text("", "."));
}
