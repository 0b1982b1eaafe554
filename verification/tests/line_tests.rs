use edit_engine::chars::is_blank_char;
use edit_engine::line::{
    insert_text, leading_whitespace_count, remove_char, spaces, trailing_content_end, TAB_SIZE,
};

#[test]
fn remove_char_takes_out_the_range() {
    assert_eq!(remove_char(1, 3, &String::from("hello")), "hlo");
    assert_eq!(remove_char(0, 1, &String::from("hello")), "ello");
    assert_eq!(remove_char(4, 5, &String::from("hello")), "hell");
    assert_eq!(remove_char(0, 5, &String::from("hello")), "");
}

#[test]
fn remove_char_with_an_empty_range_changes_nothing() {
    assert_eq!(remove_char(2, 2, &String::from("hello")), "hello");
    assert_eq!(remove_char(3, 1, &String::from("hello")), "hello");
    assert_eq!(remove_char(0, 0, &String::from("")), "");
}

#[test]
fn remove_char_stops_at_the_end_of_the_line() {
    assert_eq!(remove_char(3, 100, &String::from("hello")), "hel");
    assert_eq!(remove_char(5, 6, &String::from("hello")), "hello");
    assert_eq!(remove_char(9, 12, &String::from("hello")), "hello");
    assert_eq!(remove_char(0, usize::MAX, &String::from("hello")), "");
    assert_eq!(remove_char(0, 1, &String::from("")), "");
}

#[test]
fn remove_char_counts_characters() {
    assert_eq!(remove_char(1, 2, &String::from("h\u{e9}llo")), "hllo");
    assert_eq!(remove_char(2, 3, &String::from("h\u{e9}llo")), "h\u{e9}lo");
}

#[test]
fn insert_text_puts_the_text_at_the_column() {
    assert_eq!(insert_text("held", 3, "lo wor"), "hello word");
    assert_eq!(insert_text("abc", 0, "x"), "xabc");
    assert_eq!(insert_text("abc", 2, "x"), "abxc");
}

#[test]
fn insert_text_appends_at_and_behind_the_end() {
    assert_eq!(insert_text("abc", 3, "x"), "abcx");
    assert_eq!(insert_text("abc", 10, "x"), "abcx");
    assert_eq!(insert_text("", 0, "x"), "x");
    assert_eq!(insert_text("", 7, "xy"), "xy");
}

#[test]
fn insert_text_of_nothing_changes_nothing() {
    assert_eq!(insert_text("abc", 1, ""), "abc");
    assert_eq!(insert_text("", 0, ""), "");
}

#[test]
fn insert_text_counts_characters() {
    assert_eq!(insert_text("h\u{e9}llo", 2, "X"), "h\u{e9}Xllo");
}

#[test]
fn removing_a_character_and_inserting_it_again_gives_the_line() {
    let line = String::from("  let x = 1;");
    let chars: Vec<char> = line.chars().collect();
    for i in 0..chars.len() {
        let shorter = remove_char(i, i + 1, &line);
        assert_eq!(shorter.chars().count(), chars.len() - 1);
        assert_eq!(insert_text(&shorter, i, &chars[i].to_string()), line);
    }
}

#[test]
fn inserting_a_text_and_removing_it_again_gives_the_line() {
    let line = String::from("abcdef");
    for col in 0..=6 {
        let longer = insert_text(&line, col, "XYZ");
        assert_eq!(remove_char(col, col + 3, &longer), line);
    }
}

#[test]
fn leading_whitespace_of_a_line_of_spaces_is_its_length() {
    assert_eq!(leading_whitespace_count("    "), 4);
    assert_eq!(leading_whitespace_count(" "), 1);
    assert_eq!(leading_whitespace_count(&" ".repeat(37)), 37);
}

#[test]
fn leading_whitespace_of_a_line_without_any_is_zero() {
    assert_eq!(leading_whitespace_count("hi"), 0);
    assert_eq!(leading_whitespace_count("hi  "), 0);
    assert_eq!(leading_whitespace_count("x y"), 0);
    assert_eq!(leading_whitespace_count(""), 0);
}

#[test]
fn leading_whitespace_stops_at_the_first_other_character() {
    assert_eq!(leading_whitespace_count("  hi  "), 2);
    assert_eq!(leading_whitespace_count("    x"), 4);
    assert_eq!(leading_whitespace_count(" a b"), 1);
}

#[test]
fn leading_whitespace_counts_every_kind_of_whitespace() {
    assert_eq!(leading_whitespace_count("\t x"), 2);
    assert_eq!(leading_whitespace_count("\u{a0}\u{2003}x"), 2);
    assert_eq!(leading_whitespace_count("\t\t"), 2);
}

#[test]
fn content_ends_behind_the_last_character_that_is_no_whitespace() {
    assert_eq!(trailing_content_end("  hi  "), 4);
    assert_eq!(trailing_content_end("hi"), 2);
    assert_eq!(trailing_content_end("a b \t"), 3);
    assert_eq!(trailing_content_end("x"), 1);
}

#[test]
fn content_of_a_blank_line_ends_at_column_zero() {
    assert_eq!(trailing_content_end(""), 0);
    assert_eq!(trailing_content_end("    "), 0);
    assert_eq!(trailing_content_end(" \t "), 0);
}

#[test]
fn content_end_counts_characters() {
    assert_eq!(trailing_content_end("h\u{e9}\u{e9} "), 3);
}

#[test]
fn spaces_gives_a_run_of_spaces() {
    assert_eq!(spaces(0), "");
    assert_eq!(spaces(1), " ");
    assert_eq!(spaces(4), "    ");
    assert_eq!(spaces(TAB_SIZE), "    ");
    assert_eq!(spaces(11), " ".repeat(11));
}

#[test]
fn tab_size_is_four() {
    assert_eq!(TAB_SIZE, 4);
}

#[test]
fn the_space_character_is_whitespace() {
    assert!(is_blank_char(' '));
}

#[test]
fn whitespace_is_what_unicode_says() {
    assert!(is_blank_char('\t'));
    assert!(is_blank_char('\n'));
    assert!(is_blank_char('\u{a0}'));
    assert!(is_blank_char('\u{3000}'));
    assert!(!is_blank_char('a'));
    assert!(!is_blank_char('0'));
    assert!(!is_blank_char('_'));
    assert!(!is_blank_char('\u{8d8a}'));
}
