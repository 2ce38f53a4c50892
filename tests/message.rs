use chat_agents::message::{ChatMessage, ChatUser, MessageContent, MessageFragment, StreamContext};

fn create_test_message() -> ChatMessage {
    ChatMessage::new(
        "teststreamer".to_string(),
        1_700_000_000_000,
        ChatUser {
            username: "testuser".to_string(),
            display_name: "TestUser".to_string(),
            color: Some("#FF0000".to_string()),
            badges: vec!["subscriber".to_string()],
        },
        MessageContent {
            text: "Hello world!".to_string(),
            emotes: vec![],
            fragments: vec![MessageFragment {
                fragment_type: "text".to_string(),
                content: "Hello world!".to_string(),
            }],
        },
        StreamContext::default(),
    )
}

#[test]
fn test_message_creation() {
    let message = create_test_message();
    assert!(!message.id.is_empty());
    assert_eq!(message.streamer, "teststreamer");
    assert_eq!(message.user.username, "testuser");
    assert_eq!(message.message.text, "Hello world!");
}

#[test]
fn chat_message_test_message_validation() {
    let valid_message = create_test_message();
    assert!(valid_message.is_valid());

    let mut invalid_message = create_test_message();
    invalid_message.user.username = "".to_string();
    assert!(!invalid_message.is_valid());
}

#[test]
fn message_ids_and_lengths() {
    let a = create_test_message();
    let b = create_test_message();
    assert_eq!(a.id.len(), 36);
    assert_ne!(a.id, b.id);
    assert_eq!(a.message_length(), 12);
    let mut c = create_test_message();
    c.message.text = "héllo".to_string();
    assert_eq!(c.message_length(), 6);
    c.streamer.clear();
    assert!(!c.is_valid());
}

#[test]
fn test_spam_detection() {
    let normal_message = create_test_message();
    assert!(!normal_message.is_likely_spam());

    let mut spam_message = create_test_message();
    spam_message.message.text = "AAAAAAAAAAAAAAAA".to_string();
    assert!(spam_message.is_likely_spam());

    let mut caps_spam = create_test_message();
    caps_spam.message.text = "THIS IS ALL CAPS SPAM MESSAGE".to_string();
    assert!(caps_spam.is_likely_spam());
}

#[test]
fn spam_by_symbols_and_short_texts() {
    let mut m = create_test_message();
    m.message.text = "!!!???".to_string();
    assert!(m.is_likely_spam());
    m.message.text = "OK".to_string();
    assert!(!m.is_likely_spam());
    m.message.text = "HELLO".to_string();
    assert!(!m.is_likely_spam());
    m.message.text = "abcabcabcabc".to_string();
    assert!(!m.is_likely_spam());
    m.message.text = "aaaaaaaaaaab".to_string();
    assert!(m.is_likely_spam());
}
