use tasky::text::text_width;
use tasky::text::truncate_text;
use tasky::text::truncate_title_to_columns;
use tasky::text::title_column_width;

#[test]
fn test_truncate_text() {
    assert_eq!(truncate_text("Short", 10), "Short");
    assert_eq!(truncate_text("This is a very long text", 10), "This is...");
    assert_eq!(truncate_text("ABC", 3), "ABC");
    assert_eq!(truncate_text("ABCD", 3), "...");

    // Hangul syllables are two columns wide
    assert_eq!(truncate_text("한글", 4), "한글");
    assert_eq!(truncate_text("한글테스트", 6), "한...");
    assert_eq!(truncate_text("한글테스트", 7), "한글...");
    assert_eq!(truncate_text("한글테스트", 8), "한글...");
}

#[test]
fn test_text_width() {
    assert_eq!(text_width(""), 0);
    assert_eq!(text_width("abc"), 3);
    assert_eq!(text_width("한글"), 4);
    assert_eq!(text_width("a한b글c"), 7);
    // control characters take no columns
    assert_eq!(text_width("a\u{0007}b"), 2);
}

#[test]
fn test_truncate_title_without_terminal() {
    let long_title =
        "This is a very long title that should definitely be truncated when displayed in the terminal";
    let result = truncate_title_to_columns(long_title, None);
    assert!(result.len() <= long_title.len());
    assert!(result.ends_with("..."));
    assert_eq!(text_width(&result), 50);

    let short = truncate_title_to_columns("짧은 제목", None);
    assert_eq!(short, "짧은 제목");
}

#[test]
fn test_title_column_width_floor() {
    // however narrow the terminal, the title column keeps its minimum
    assert_eq!(title_column_width(0), 7);
    assert_eq!(title_column_width(40), 7);
    // a wide terminal leaves the surplus to the title
    assert!(title_column_width(200) > 7);
}
