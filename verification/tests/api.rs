use storyboard::api::{
    accept_status, chat_reply, chat_request, image_reply, image_request, image_url_from,
    reply_from, ApiError, DEFAULT_SYSTEM_PROMPT,
};
use storyboard::models::{ApiConfig, ChatMessage};

fn endpoint(base_url: &str, model: Option<&str>) -> ApiConfig {
    ApiConfig {
        id: "1".to_string(),
        name: "main".to_string(),
        api_type: "text".to_string(),
        base_url: base_url.to_string(),
        api_key: "SECRET-REDACTED".to_string(),
        model: model.map(|m| m.to_string()),
        is_default: true,
    }
}

fn said(role: &str, content: &str) -> ChatMessage {
    ChatMessage {
        id: Some(1),
        role: role.to_string(),
        content: content.to_string(),
        timestamp: Some(2),
    }
}

#[test]
fn chat_request_holds_system_history_and_message() {
    let history = vec![said("user", "one"), said("assistant", "two")];
    let request = chat_request(
        &endpoint("https://api.example.com/v1/", None),
        "three".to_string(),
        Some(history),
        Some("be brief".to_string()),
    );
    assert_eq!(request.url, "https://api.example.com/v1/chat/completions");
    assert_eq!(request.authorization, "Bearer SECRET-REDACTED");
    assert_eq!(request.model, "gpt-3.5-turbo");
    let turns: Vec<(&str, &str)> =
        request.messages.iter().map(|m| (m.role.as_str(), m.content.as_str())).collect();
    assert_eq!(
        turns,
        vec![("system", "be brief"), ("user", "one"), ("assistant", "two"), ("user", "three")]
    );
    assert!(request.messages.iter().all(|m| m.id.is_none() && m.timestamp.is_none()));
}

#[test]
fn chat_request_sends_at_most_ten_earlier_messages() {
    let history: Vec<ChatMessage> = (0..15).map(|i| said("user", &format!("h{}", i))).collect();
    let request =
        chat_request(&endpoint("http://h", Some("m-1")), "now".to_string(), Some(history), None);
    assert_eq!(request.model, "m-1");
    assert_eq!(request.messages.len(), 12);
    assert_eq!(request.messages[0].role, "system");
    assert_eq!(request.messages[0].content, DEFAULT_SYSTEM_PROMPT);
    assert_eq!(request.messages[1].content, "h0");
    assert_eq!(request.messages[10].content, "h9");
    assert_eq!(request.messages[11].content, "now");
    let none = chat_request(&endpoint("http://h", None), "now".to_string(), None, None);
    assert_eq!(none.messages.len(), 2);
}

#[test]
fn image_request_is_for_one_image() {
    let request = image_request(&endpoint("https://img.example.com//", None), "a cat".to_string());
    assert_eq!(request.url, "https://img.example.com/v1/images/generations");
    assert_eq!(request.model, "dall-e-3");
    assert_eq!(request.prompt, "a cat");
    assert_eq!(request.count, 1);
    assert_eq!(request.size, "1024x1024");
    assert_eq!(request.authorization, "Bearer SECRET-REDACTED");
}

#[test]
fn status_of_400_or_more_is_a_refusal() {
    assert_eq!(accept_status(200, "ok".to_string()), Ok("ok".to_string()));
    assert_eq!(accept_status(399, "ok".to_string()), Ok("ok".to_string()));
    assert_eq!(
        accept_status(400, "bad".to_string()),
        Err(ApiError::Rejected { status: 400, body: "bad".to_string() })
    );
    assert_eq!(
        accept_status(503, String::new()),
        Err(ApiError::Rejected { status: 503, body: String::new() })
    );
}

#[test]
fn reply_is_the_text_unless_empty() {
    assert_eq!(reply_from(Some("hello".to_string())), Ok("hello".to_string()));
    assert_eq!(reply_from(Some(String::new())), Err(ApiError::EmptyReply));
    assert_eq!(reply_from(None), Err(ApiError::EmptyReply));
}

#[test]
fn image_address_prefers_the_listed_one() {
    assert_eq!(image_url_from(Some("a".to_string()), Some("b".to_string())), Ok("a".to_string()));
    assert_eq!(image_url_from(None, Some("b".to_string())), Ok("b".to_string()));
    assert_eq!(image_url_from(None, None), Err(ApiError::NoImageUrl));
}

#[test]
fn chat_reply_reads_the_first_choice() {
    let body = r#"{"choices":[{"message":{"role":"assistant","content":"第一 answer"}},{"message":{"content":"second"}}]}"#;
    assert_eq!(chat_reply(body), Ok("第一 answer".to_string()));
    assert_eq!(chat_reply(r#"{"choices":[]}"#), Err(ApiError::EmptyReply));
    assert_eq!(chat_reply(r#"{"choices":[{"message":{"content":""}}]}"#), Err(ApiError::EmptyReply));
    assert_eq!(chat_reply(r#"{"choices":[{"message":{"content":5}}]}"#), Err(ApiError::EmptyReply));
    assert_eq!(chat_reply(r#"{"choices":{"0":{"message":{"content":"x"}}}}"#), Err(ApiError::EmptyReply));
    assert_eq!(chat_reply(r#"{"error":"nope"}"#), Err(ApiError::EmptyReply));
    assert_eq!(chat_reply("not json"), Err(ApiError::Unreadable));
    assert_eq!(chat_reply(r#"{"choices":[]} trailing"#), Err(ApiError::Unreadable));
    assert_eq!(chat_reply(""), Err(ApiError::Unreadable));
}

#[test]
fn image_reply_reads_the_address() {
    assert_eq!(
        image_reply(r#"{"data":[{"url":"https://img/1.png"},{"url":"https://img/2.png"}]}"#),
        Ok("https://img/1.png".to_string())
    );
    assert_eq!(image_reply(r#"{"url":"https://img/top.png"}"#), Ok("https://img/top.png".to_string()));
    assert_eq!(
        image_reply(r#"{"data":[{"b64":"..."}],"url":"https://img/top.png"}"#),
        Ok("https://img/top.png".to_string())
    );
    assert_eq!(image_reply(r#"{"data":[]}"#), Err(ApiError::NoImageUrl));
    assert_eq!(image_reply("[1,2"), Err(ApiError::Unreadable));
}
