use chat_agents::parser::TwitchChatParser;

#[test]
fn test_parser_creation() {
    let parser = TwitchChatParser::new();
    assert!(parser.is_ok());
}

#[test]
fn test_color_extraction() {
    let parser = TwitchChatParser::new().unwrap();

    assert_eq!(parser.rgb_to_hex("154, 205, 50").unwrap(), "#9ACD32");

    assert_eq!(
        parser.extract_color_from_style("color: rgb(154, 205, 50);"),
        Some("#9ACD32".to_string())
    );

    assert_eq!(
        parser.extract_color_from_style("color: #FF0000;"),
        Some("#FF0000".to_string())
    );
}

#[test]
fn rgb_edge_cases() {
    let parser = TwitchChatParser::new().unwrap();
    assert_eq!(parser.rgb_to_hex("0,0,0").unwrap(), "#000000");
    assert_eq!(parser.rgb_to_hex(" 255 ,\t16, +1 ").unwrap(), "#FF1001");
    assert!(parser.rgb_to_hex("256, 0, 0").is_err());
    assert!(parser.rgb_to_hex("1, 2").is_err());
    assert!(parser.rgb_to_hex("1, 2, 3, 4").is_err());
    assert!(parser.rgb_to_hex("1, , 3").is_err());
    assert!(parser.rgb_to_hex("").is_err());
}

#[test]
fn style_color_edge_cases() {
    let parser = TwitchChatParser::new().unwrap();
    assert_eq!(parser.extract_color_from_style("font-weight: bold"), None);
    assert_eq!(parser.extract_color_from_style("color: #00FF00 !important"), Some("#00FF00".to_string()));
    assert_eq!(parser.extract_color_from_style("color:#123456"), Some("#123456".to_string()));
    assert_eq!(parser.extract_color_from_style("color:#123"), None);
    // an rgb form that does not read falls back to a later # value
    assert_eq!(parser.extract_color_from_style("color: rgb(300, 1, 1); border: #ABCDEF;"), Some("#ABCDEF".to_string()));
    assert_eq!(parser.extract_color_from_style("background-color: rgb(1, 2, 3)"), Some("#010203".to_string()));
}
