use chat_agents::api::{ApiResponse, CreateAgentRequest};

#[test]
fn api_envelopes() {
    let ok = ApiResponse::success(5u32);
    assert!(ok.success);
    assert_eq!(ok.data, Some(5));
    assert!(ok.error.is_none());
    let err: ApiResponse<u32> = ApiResponse::error("Failed to create agent".to_string());
    assert!(!err.success);
    assert!(err.data.is_none());
    assert_eq!(err.error.as_deref(), Some("Failed to create agent"));
    let req = CreateAgentRequest { streamer: "a".to_string(), priority: None };
    assert_eq!(req.priority_or_default(), 0);
    let req = CreateAgentRequest { streamer: "a".to_string(), priority: Some(3) };
    assert_eq!(req.priority_or_default(), 3);
}
