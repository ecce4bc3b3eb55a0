use jview::jview_text::{split_lines, string_tail};

fn std_lines(text: &str) -> Vec<String> {
    text.lines().map(|line| line.to_string()).collect()
}

#[test]
fn split_lines_of_nothing() {
    assert!(split_lines("").is_empty());
}

#[test]
fn split_lines_at_line_feeds() {
    assert_eq!(split_lines("one\ntwo\nthree"), vec!["one", "two", "three"]);
    assert_eq!(split_lines("one\ntwo\nthree\n"), vec!["one", "two", "three"]);
}

#[test]
fn split_lines_keeps_empty_lines_but_the_one_at_the_end() {
    assert_eq!(split_lines("\n"), vec![""]);
    assert_eq!(split_lines("\n\n"), vec!["", ""]);
    assert_eq!(split_lines("a\n\nb\n"), vec!["a", "", "b"]);
    assert_eq!(split_lines("\na"), vec!["", "a"]);
}

#[test]
fn split_lines_takes_a_carriage_return_before_a_line_feed() {
    assert_eq!(split_lines("one\r\ntwo\r\n"), vec!["one", "two"]);
    assert_eq!(split_lines("\r\n"), vec![""]);
    assert_eq!(split_lines("a\r\r\nb"), vec!["a\r", "b"]);
}

#[test]
fn split_lines_keeps_other_carriage_returns() {
    assert_eq!(split_lines("foo\nbar\n\r\nbaz\r"), vec!["foo", "bar", "", "baz\r"]);
    assert_eq!(split_lines("a\rb\nc"), vec!["a\rb", "c"]);
    assert_eq!(split_lines("\r"), vec!["\r"]);
}

#[test]
fn split_lines_keeps_characters_whole() {
    assert_eq!(split_lines("h\u{e9}llo\n\u{1F50D}\r\n\u{2714} ok"), vec!["h\u{e9}llo", "\u{1F50D}", "\u{2714} ok"]);
}

#[test]
fn split_lines_agrees_with_the_standard_library() {
    let pieces = ["", "a", "\n", "\r", "\r\n", "bc", "\n\n", "\r\r", " ", "\u{e9}"];
    for first in pieces {
        for second in pieces {
            for third in pieces {
                for fourth in pieces {
                    let text = format!("{}{}{}{}", first, second, third, fourth);
                    assert_eq!(split_lines(&text), std_lines(&text));
                }
            }
        }
    }
}

#[test]
fn string_tail_cuts_from_the_left() {
    assert_eq!(string_tail("abcdef", 0), "abcdef");
    assert_eq!(string_tail("abcdef", 2), "cdef");
    assert_eq!(string_tail("abcdef", 5), "f");
}

#[test]
fn string_tail_past_the_end_is_empty() {
    assert_eq!(string_tail("abcdef", 6), "");
    assert_eq!(string_tail("abcdef", 1000), "");
    assert_eq!(string_tail("", 0), "");
    assert_eq!(string_tail("", usize::MAX), "");
}

#[test]
fn string_tail_counts_characters() {
    assert_eq!(string_tail("\u{1F50D}\u{e9}x", 1), "\u{e9}x");
    assert_eq!(string_tail("\u{1F50D}\u{e9}x", 2), "x");
}
