use edit_engine::buffer::Editor;

fn editor(lines: &[&str]) -> Editor {
    Editor { content: lines.iter().map(|l| l.to_string()).collect() }
}

fn lines(editor: &Editor) -> Vec<&str> {
    editor.content.iter().map(|l| l.as_str()).collect()
}

#[test]
fn a_new_editor_has_no_line() {
    assert!(Editor::new().content.is_empty());
}

#[test]
fn resize_fills_up_with_empty_lines() {
    let mut e = Editor::new();
    e.resize(80, 3);
    assert_eq!(lines(&e), vec!["", "", ""]);
    let mut e = editor(&["ab", "cd"]);
    e.resize(80, 4);
    assert_eq!(lines(&e), vec!["ab", "cd", "", ""]);
}

#[test]
fn resize_drops_the_lines_below_the_last_row() {
    let mut e = editor(&["ab", "cd", "ef", "gh"]);
    e.resize(80, 2);
    assert_eq!(lines(&e), vec!["ab", "cd"]);
    e.resize(80, 0);
    assert!(e.content.is_empty());
}

#[test]
fn resize_to_the_same_height_changes_nothing() {
    let mut e = editor(&["ab", "cd"]);
    e.resize(10, 2);
    assert_eq!(lines(&e), vec!["ab", "cd"]);
    e.resize(200, 2);
    assert_eq!(lines(&e), vec!["ab", "cd"]);
}

#[test]
fn resize_loses_what_it_dropped() {
    let mut e = editor(&["ab", "cd", "ef"]);
    e.resize(80, 1);
    e.resize(80, 3);
    assert_eq!(lines(&e), vec!["ab", "", ""]);
}

#[test]
fn leading_spaces_of_a_line() {
    let mut e = editor(&["    x", "hi", "  ", "", "\t y"]);
    assert_eq!(e.get_line_leading_spaces(0), Some(4));
    assert_eq!(e.get_line_leading_spaces(1), Some(0));
    assert_eq!(e.get_line_leading_spaces(2), Some(2));
    assert_eq!(e.get_line_leading_spaces(3), Some(0));
    assert_eq!(e.get_line_leading_spaces(4), Some(2));
    assert_eq!(lines(&e), vec!["    x", "hi", "  ", "", "\t y"]);
}

#[test]
fn leading_spaces_of_a_line_that_is_not_there() {
    let mut e = editor(&["    x"]);
    assert_eq!(e.get_line_leading_spaces(1), None);
    assert_eq!(e.get_line_leading_spaces(usize::MAX), None);
    assert_eq!(Editor::new().get_line_leading_spaces(0), None);
}

#[test]
fn leading_spaces_beyond_the_last_column_number() {
    let mut e = Editor { content: vec![" ".repeat(65535), " ".repeat(65536)] };
    assert_eq!(e.get_line_leading_spaces(0), Some(65535));
    assert_eq!(e.get_line_leading_spaces(1), None);
}

#[test]
fn merge_lines_joins_a_line_and_the_next() {
    let mut e = editor(&["ab", "cd"]);
    e.merge_lines(0);
    assert_eq!(lines(&e), vec!["abcd"]);
    let mut e = editor(&["one", "two", "three", "four"]);
    e.merge_lines(1);
    assert_eq!(lines(&e), vec!["one", "twothree", "four"]);
    e.merge_lines(1);
    assert_eq!(lines(&e), vec!["one", "twothreefour"]);
}

#[test]
fn merge_lines_with_empty_lines() {
    let mut e = editor(&["", "cd", ""]);
    e.merge_lines(0);
    assert_eq!(lines(&e), vec!["cd", ""]);
    e.merge_lines(0);
    assert_eq!(lines(&e), vec!["cd"]);
}

#[test]
fn split_line_splits_at_the_column() {
    let mut e = editor(&["hello", "x", "y"]);
    e.split_line(0, 2, "");
    assert_eq!(lines(&e), vec!["he", "llo", "x"]);
}

#[test]
fn split_line_puts_the_prefix_in_front_of_the_second_part() {
    let mut e = editor(&["  hello", "x", "y"]);
    e.split_line(0, 4, "  ");
    assert_eq!(lines(&e), vec!["  he", "  llo", "x"]);
}

#[test]
fn split_line_at_the_ends_of_the_line() {
    let mut e = editor(&["ab", "cd", "ef"]);
    e.split_line(0, 0, "");
    assert_eq!(lines(&e), vec!["", "ab", "cd"]);
    let mut e = editor(&["ab", "cd", "ef"]);
    e.split_line(1, 2, "");
    assert_eq!(lines(&e), vec!["ab", "cd", ""]);
    let mut e = editor(&["ab", "cd", "ef"]);
    e.split_line(1, 2, "    ");
    assert_eq!(lines(&e), vec!["ab", "cd", "    "]);
}

#[test]
fn split_line_behind_the_end_splits_at_the_end() {
    let mut e = editor(&["ab", "cd", "ef"]);
    e.split_line(0, 9, ">");
    assert_eq!(lines(&e), vec!["ab", ">", "cd"]);
}

#[test]
fn split_line_of_an_empty_line_adds_an_empty_line() {
    let mut e = editor(&["", "cd", "ef"]);
    e.split_line(0, 0, "");
    assert_eq!(lines(&e), vec!["", "", "cd"]);
    let mut e = editor(&["ab", "", "ef"]);
    e.split_line(1, 5, "    ");
    assert_eq!(lines(&e), vec!["ab", "", ""]);
}

#[test]
fn split_line_keeps_the_number_of_lines() {
    let mut e = editor(&["ab cd", "ef", "", "gh"]);
    for row in 0..4 {
        for col in 0..7 {
            e.split_line(row, col, " ");
            assert_eq!(e.content.len(), 4);
        }
    }
}

#[test]
fn split_line_on_the_last_row_loses_the_second_part() {
    let mut e = editor(&["ab", "cdef"]);
    e.split_line(1, 2, "");
    assert_eq!(lines(&e), vec!["ab", "cd"]);
}

#[test]
fn split_line_without_a_line_changes_nothing() {
    let mut e = editor(&["ab", "cd"]);
    e.split_line(2, 0, "");
    assert_eq!(lines(&e), vec!["ab", "cd"]);
    let mut e = Editor::new();
    e.split_line(0, 0, "x");
    assert!(e.content.is_empty());
}

#[test]
fn split_line_counts_characters() {
    let mut e = editor(&["h\u{e9}llo", ""]);
    e.split_line(0, 2, "");
    assert_eq!(lines(&e), vec!["h\u{e9}", "llo"]);
}

#[test]
fn split_then_merge_gives_the_line_again() {
    for col in 0..8 {
        let mut e = editor(&["first", "second", "third", "fourth"]);
        e.split_line(1, col, "");
        e.merge_lines(1);
        assert_eq!(lines(&e), vec!["first", "second", "third"]);
    }
    let mut e = editor(&["", "x"]);
    e.split_line(0, 0, "");
    e.merge_lines(0);
    assert_eq!(lines(&e), vec![""]);
}

#[test]
fn text_joins_the_lines() {
    let e = editor(&["ab", "cd", "", "ef"]);
    assert_eq!(e.text("\n"), "ab\ncd\n\nef");
    assert_eq!(e.text("\r\n"), "ab\r\ncd\r\n\r\nef");
    assert_eq!(e.text(""), "abcdef");
}

#[test]
fn text_of_few_lines() {
    assert_eq!(Editor::new().text("\n"), "");
    assert_eq!(editor(&["ab"]).text("\n"), "ab");
    assert_eq!(editor(&[""]).text("\n"), "");
    assert_eq!(editor(&["", ""]).text("\n"), "\n");
}
