use jview::jview_viewport::ViewportState;

fn lines(texts: &[&str]) -> Vec<String> {
    texts.iter().map(|t| t.to_string()).collect()
}

fn window(vertical: usize, horizontal: usize, height: usize) -> ViewportState {
    ViewportState { vertical_offset: vertical, horizontal_offset: horizontal, viewport_height: height }
}

#[test]
fn scroll_moves_by_the_deltas() {
    let moved = window(3, 2, 5).scroll(1, 4, 10);
    assert_eq!(moved, window(4, 6, 5));
    let back = moved.scroll(-2, -1, 10);
    assert_eq!(back, window(2, 5, 5));
}

#[test]
fn scroll_stops_at_the_last_line() {
    assert_eq!(window(8, 0, 5).scroll(1, 0, 10).vertical_offset, 9);
    assert_eq!(window(9, 0, 5).scroll(1, 0, 10).vertical_offset, 9);
    assert_eq!(window(3, 0, 5).scroll(100, 0, 10).vertical_offset, 9);
    assert_eq!(window(0, 0, 5).scroll(isize::MAX, 0, 1).vertical_offset, 0);
}

#[test]
fn scroll_stops_at_zero() {
    assert_eq!(window(0, 0, 5).scroll(-1, -1, 10), window(0, 0, 5));
    assert_eq!(window(3, 2, 5).scroll(-100, -100, 10), window(0, 0, 5));
    assert_eq!(window(3, 2, 5).scroll(isize::MIN, isize::MIN, 10), window(0, 0, 5));
}

#[test]
fn scroll_over_no_lines_ends_at_the_top() {
    for delta in [-5isize, -1, 0, 1, 7, isize::MAX, isize::MIN] {
        assert_eq!(window(0, 0, 5).scroll(delta, 0, 0).vertical_offset, 0);
        assert_eq!(window(40, 0, 5).scroll(delta, 0, 0).vertical_offset, 0);
    }
}

#[test]
fn scroll_pulls_a_stale_offset_back_into_a_shorter_list() {
    assert_eq!(window(50, 0, 5).scroll(-1, 0, 10).vertical_offset, 9);
    assert_eq!(window(50, 0, 5).scroll(0, 0, 10).vertical_offset, 9);
}

#[test]
fn scroll_right_has_no_limit_but_the_machine() {
    assert_eq!(window(0, 1000, 5).scroll(0, 1, 3).horizontal_offset, 1001);
    assert_eq!(window(0, usize::MAX, 5).scroll(0, 1, 3).horizontal_offset, usize::MAX);
    assert_eq!(window(0, usize::MAX - 1, 5).scroll(0, 5, 3).horizontal_offset, usize::MAX);
}

#[test]
fn scroll_keeps_the_height() {
    assert_eq!(window(1, 1, 0).scroll(3, 3, 9).viewport_height, 0);
    assert_eq!(window(1, 1, 17).scroll(-3, 3, 9).viewport_height, 17);
}

#[test]
fn visible_slice_shows_a_window() {
    let all = lines(&["zero", "one", "two", "three", "four"]);
    assert_eq!(window(1, 0, 3).visible_slice(&all), lines(&["one", "two", "three"]));
    assert_eq!(window(0, 0, 2).visible_slice(&all), lines(&["zero", "one"]));
}

#[test]
fn visible_slice_ends_with_the_list() {
    let all = lines(&["zero", "one", "two", "three", "four"]);
    assert_eq!(window(3, 0, 10).visible_slice(&all), lines(&["three", "four"]));
    assert_eq!(window(4, 0, 1).visible_slice(&all), lines(&["four"]));
    assert!(window(5, 0, 10).visible_slice(&all).is_empty());
    assert!(window(usize::MAX, 0, usize::MAX).visible_slice(&all).is_empty());
}

#[test]
fn visible_slice_is_never_higher_than_the_window() {
    let all: Vec<String> = (0..100).map(|i| format!("line {}", i)).collect();
    for height in [0usize, 1, 7, 99, 100, 101, 1000] {
        for start in [0usize, 1, 50, 99, 100, 200] {
            let rows = window(start, 0, height).visible_slice(&all);
            assert!(rows.len() <= height);
            assert!(rows.len() <= all.len().saturating_sub(start));
            assert_eq!(rows.len(), height.min(all.len().saturating_sub(start)));
        }
    }
}

#[test]
fn visible_slice_of_nothing_is_empty() {
    let none: Vec<String> = Vec::new();
    assert!(window(0, 0, 10).visible_slice(&none).is_empty());
    assert!(window(3, 4, 10).visible_slice(&none).is_empty());
}

#[test]
fn visible_slice_of_a_window_without_rows_is_empty() {
    let all = lines(&["zero", "one"]);
    assert!(window(0, 0, 0).visible_slice(&all).is_empty());
    assert!(window(1, 2, 0).visible_slice(&all).is_empty());
}

#[test]
fn visible_slice_cuts_every_line_on_the_left() {
    let all = lines(&["abcdef", "xy", "", "0123456789"]);
    assert_eq!(window(0, 2, 10).visible_slice(&all), lines(&["cdef", "", "", "23456789"]));
    assert_eq!(window(0, 1, 10).visible_slice(&all), lines(&["bcdef", "y", "", "123456789"]));
}

#[test]
fn visible_slice_keeps_the_row_of_a_line_scrolled_past() {
    let all = lines(&["0123456789"]);
    let rows = window(0, 1000, 5).visible_slice(&all);
    assert_eq!(rows, lines(&[""]));
    assert_eq!(window(0, 10, 5).visible_slice(&all), lines(&[""]));
    assert_eq!(window(0, 9, 5).visible_slice(&all), lines(&["9"]));
}

#[test]
fn visible_slice_has_as_many_rows_at_every_horizontal_offset() {
    let all = lines(&["short", "a much longer line than the first", "", "mid length"]);
    let at_zero = window(1, 0, 3).visible_slice(&all).len();
    for horizontal in [1usize, 5, 10, 33, 34, 1000, usize::MAX] {
        assert_eq!(window(1, horizontal, 3).visible_slice(&all).len(), at_zero);
    }
}

#[test]
fn visible_slice_counts_characters_not_bytes() {
    let all = lines(&["h\u{e9}llo", "\u{1F50D} find", "\u{2714}"]);
    assert_eq!(window(0, 2, 5).visible_slice(&all), lines(&["llo", "find", ""]));
    assert_eq!(window(0, 1, 5).visible_slice(&all), lines(&["\u{e9}llo", " find", ""]));
}
