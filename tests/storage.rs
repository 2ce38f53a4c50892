use chat_agents::storage::{CsvFormatter, JsonFormatter};

#[test]
fn test_csv_field_escaping() {
    let text_with_comma = "Hello, world!";
    let text_with_quotes = "He said \"Hello\"";
    let text_with_newline = "Line 1\nLine 2";

    assert_eq!(CsvFormatter::escape_csv_field(text_with_comma), "\"Hello, world!\"");
    assert_eq!(CsvFormatter::escape_csv_field(text_with_quotes), "\"He said \"\"Hello\"\"\"");
    assert_eq!(CsvFormatter::escape_csv_field(text_with_newline), "\"Line 1\nLine 2\"");
    assert_eq!(CsvFormatter::escape_csv_field("normal text"), "normal text");
}

#[test]
fn test_csv_default_columns() {
    let columns = CsvFormatter::default_columns();
    let expected = vec![
        "id", "timestamp", "streamer", "username", "display_name",
        "message_text", "user_color", "badges", "viewer_count",
        "game_category", "stream_title"
    ];
    assert_eq!(columns, expected);
}

#[test]
fn csv_header_and_extensions() {
    let columns = vec!["username".to_string(), "message_text".to_string(), "streamer".to_string()];
    let formatter = CsvFormatter::new(columns);
    assert_eq!(formatter.header(), "username,message_text,streamer");
    assert_eq!(formatter.file_extension(), "csv");
    assert_eq!(CsvFormatter::new(vec![]).header(), "");
    assert_eq!(JsonFormatter.file_extension(), "jsonl");
}

#[test]
fn csv_escaping_edge_cases() {
    assert_eq!(CsvFormatter::escape_csv_field(""), "");
    assert_eq!(CsvFormatter::escape_csv_field("\""), "\"\"\"\"");
    assert_eq!(CsvFormatter::escape_csv_field("ünï,code"), "\"ünï,code\"");
}
