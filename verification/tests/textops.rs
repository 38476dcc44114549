use text_editor::text::drop_last_char;
use text_editor::text::insert_char_at;
use text_editor::text::insert_str_at;
use text_editor::text::line_len;
use text_editor::text::lines_to_text;
use text_editor::text::text_to_lines;

#[test]
fn insert_char_at_every_offset() {
    assert_eq!(insert_char_at("bc", 0, 'a'), "abc");
    assert_eq!(insert_char_at("ac", 1, 'b'), "abc");
    assert_eq!(insert_char_at("ab", 2, 'c'), "abc");
    assert_eq!(insert_char_at("", 0, 'x'), "x");
}

#[test]
fn insert_char_at_counts_characters_not_bytes() {
    assert_eq!(insert_char_at("héllo", 2, 'x'), "héxllo");
}

#[test]
fn insert_str_at_splices_text() {
    assert_eq!(insert_str_at("ad", 1, "bc"), "abcd");
    assert_eq!(insert_str_at("ab", 0, ""), "ab");
}

#[test]
fn drop_last_char_removes_one_character() {
    assert_eq!(drop_last_char("abc"), "ab");
    assert_eq!(drop_last_char("a"), "");
    assert_eq!(drop_last_char("héé"), "hé");
}

#[test]
fn line_len_counts_characters() {
    assert_eq!(line_len(&String::from("abc")), 3);
    assert_eq!(line_len(&String::from("héllo")), 5);
    assert_eq!(line_len(&String::new()), 0);
}

#[test]
fn text_to_lines_split_cases() {
    let none: Vec<String> = Vec::new();
    assert_eq!(text_to_lines(""), none);
    assert_eq!(text_to_lines("ab"), vec!["ab".to_string()]);
    assert_eq!(
        text_to_lines("ab\ncd"),
        vec!["ab".to_string(), "cd".to_string()]
    );
    assert_eq!(
        text_to_lines("ab\ncd\n"),
        vec!["ab".to_string(), "cd".to_string()]
    );
    assert_eq!(text_to_lines("\n"), vec![String::new()]);
    assert_eq!(
        text_to_lines("\n\na"),
        vec![String::new(), String::new(), "a".to_string()]
    );
}

#[test]
fn lines_to_text_appends_one_newline_per_line() {
    let lines = vec!["ab".to_string(), "cd".to_string()];
    assert_eq!(lines_to_text(&lines), "ab\ncd\n");
    let one = vec![String::new()];
    assert_eq!(lines_to_text(&one), "\n");
    let empty: Vec<String> = Vec::new();
    assert_eq!(lines_to_text(&empty), "");
}

#[test]
fn split_undoes_join_for_newline_free_lines() {
    let lines = vec!["ab".to_string(), String::new(), "cd".to_string()];
    assert_eq!(text_to_lines(&lines_to_text(&lines)), lines);
}
