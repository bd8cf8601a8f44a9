use openai_qa::chat::{
    build_chat_request, build_messages, chat_log_text, chat_response, read_chat_reply, reply_from_document,
    ChatError, ChatReply, MessageBody,
};
use openai_qa::clock::{current_date_time, record_file_name, stamp_at, stamp_of_reading};
use openai_qa::json::JsonValue;
use openai_qa::settings::Configuration;
use openai_qa::window::{request_button_disable, save_button_attr, toggle_class};

fn message(role: &str, content: &str) -> serde_json::Value {
    let mut m = serde_json::Map::new();
    m.insert("role".to_string(), serde_json::Value::String(role.to_string()));
    m.insert("content".to_string(), serde_json::Value::String(content.to_string()));
    serde_json::Value::Object(m)
}

fn body(messages: Vec<serde_json::Value>) -> String {
    let mut m = serde_json::Map::new();
    m.insert("messages".to_string(), serde_json::Value::Array(messages));
    m.insert("model".to_string(), serde_json::Value::String("gpt-3.5-turbo".to_string()));
    serde_json::Value::Object(m).to_string()
}

#[test]
fn messages_skip_a_blank_system_prompt() {
    let ms = build_messages(" \n", "hi");
    assert_eq!(ms, vec![MessageBody { role: "user".to_string(), content: "hi".to_string() }]);
    let ms = build_messages(" be brief ", "");
    assert_eq!(
        ms,
        vec![
            MessageBody { role: "system".to_string(), content: " be brief ".to_string() },
            MessageBody { role: "user".to_string(), content: "".to_string() },
        ]
    );
}

#[test]
fn request_matches_what_serde_json_writes() {
    let r = build_chat_request("https://api.openai.com", "sk-1", "sys \"q\"", "hello\n");
    assert_eq!(r.url, "https://api.openai.com/v1/chat/completions");
    assert_eq!(r.authorization, "Bearer sk-1");
    assert_eq!(r.content_type, "application/json");
    assert_eq!(r.body, body(vec![message("system", "sys \"q\""), message("user", "hello\n")]));
    let r = build_chat_request("http://h", "", "", "x");
    assert_eq!(r.body, "{\"messages\":[{\"content\":\"x\",\"role\":\"user\"}],\"model\":\"gpt-3.5-turbo\"}");
}

#[test]
fn reply_with_answer_and_usage() {
    let raw = "{\"id\":\"c\",\"choices\":[{\"index\":0,\"message\":{\"role\":\"assistant\",\"content\":\"**hi**\"}}],\"usage\":{\"prompt_tokens\":12,\"completion_tokens\":3,\"total_tokens\":15}}";
    let reply = read_chat_reply(raw).unwrap();
    assert_eq!(reply, ChatReply { content: "**hi**".to_string(), prompt_tokens: 12, completion_tokens: 3 });
}

#[test]
fn reply_with_missing_parts_uses_defaults() {
    let reply = read_chat_reply("{\"choices\":[],\"usage\":{\"prompt_tokens\":-1,\"completion_tokens\":2.0}}").unwrap();
    assert_eq!(reply, ChatReply { content: String::new(), prompt_tokens: 0, completion_tokens: 0 });
    let reply = read_chat_reply("{\"usage\":{\"prompt_tokens\":18446744073709551615,\"completion_tokens\":18446744073709551616}}").unwrap();
    assert_eq!((reply.prompt_tokens, reply.completion_tokens), (u64::MAX, 0));
    let reply = read_chat_reply("{\"choices\":[],\"usage\":{\"prompt_tokens\":-1,\"completion_tokens\":2.0}}").unwrap();
    assert_eq!(reply, ChatReply { content: String::new(), prompt_tokens: 0, completion_tokens: 0 });
    let reply = read_chat_reply("[1,2]").unwrap();
    assert_eq!(reply, ChatReply { content: String::new(), prompt_tokens: 0, completion_tokens: 0 });
}

#[test]
fn reply_with_service_error_is_refused() {
    let raw = "{\"error\":{\"message\":\"Incorrect API key provided\",\"type\":\"invalid_request_error\"},\"choices\":[{\"message\":{\"content\":\"no\"}}]}";
    let err = read_chat_reply(raw).unwrap_err();
    assert_eq!(err, ChatError::Refused("Incorrect API key provided".to_string()));
    assert_eq!(err.message(), "Incorrect API key provided");
}

#[test]
fn reply_error_without_text_message_is_not_a_refusal() {
    let reply = read_chat_reply("{\"error\":{\"message\":5}}").unwrap();
    assert_eq!(reply.content, "");
}

#[test]
fn reply_that_is_not_json() {
    let expected = serde_json::from_str::<serde_json::Value>("<html>").unwrap_err().to_string();
    match read_chat_reply("<html>") {
        Err(ChatError::InvalidJson(m)) => assert_eq!(m, expected),
        other => panic!("unexpected {:?}", other),
    }
}

#[test]
fn reply_from_a_built_document() {
    let v = JsonValue::Object(vec![(
        "error".to_string(),
        JsonValue::Object(vec![("message".to_string(), JsonValue::Str("quota".to_string()))]),
    )]);
    assert_eq!(reply_from_document(&v), Err("quota".to_string()));
}

#[test]
fn shown_response_renders_markdown() {
    let r = chat_response(&ChatReply { content: "# Hi Mercury!".to_string(), prompt_tokens: 1, completion_tokens: 2 });
    assert_eq!(r.content, "<h1>Hi Mercury!</h1>");
    assert_eq!((r.prompt_tokens, r.completion_tokens), (1, 2));
}

#[test]
fn log_record_text() {
    let reply = ChatReply { content: "ans".to_string(), prompt_tokens: 10, completion_tokens: 0 };
    assert_eq!(
        chat_log_text("sp", "up", &reply, "{}"),
        "system prompt:sp\nuser prompt:up\n\nanswer:ans\nprompt_tokens:10 completion_tokens:0\n\nfull body:{}"
    );
}

#[test]
fn time_stamps() {
    assert_eq!(stamp_at(1431648000, 0), Some("2015-05-15_00_00_00".to_string()));
    assert_eq!(stamp_at(1725029869, 5), Some("2024-08-30_14_57_49".to_string()));
    assert_eq!(stamp_at(i64::MAX, 0), None);
    assert_eq!(stamp_at(8_210_266_876_799, 999_999_999), Some("+262142-12-31_23_59_59".to_string()));
    assert_eq!(stamp_at(8_210_266_876_800, 0), None);
    let now = current_date_time().unwrap();
    assert_eq!(now.len(), 19);
    assert_eq!(&now[4..5], "-");
    assert_eq!(&now[10..11], "_");
    assert_eq!(stamp_of_reading(None), None);
    assert_eq!(stamp_of_reading(Some((0, 0))), Some("1970-01-01_00_00_00".to_string()));
    assert_eq!(stamp_of_reading(Some((0, 1_000_000_000))), None);
    assert_eq!(stamp_of_reading(Some((8_210_266_876_800, 0))), None);
    assert_eq!(stamp_of_reading(Some((253_402_300_799, 999_999_999))), Some("9999-12-31_23_59_59".to_string()));
    assert_eq!(record_file_name("2015-05-15_00_00_00"), "2015-05-15_00_00_00.txt");
}

#[test]
fn send_button_rules() {
    let ok = Configuration { url_prefix: "u".to_string(), secret: "s".to_string() };
    assert!(!request_button_disable(&ok, "", "p"));
    assert!(!request_button_disable(&ok, "s", ""));
    assert!(request_button_disable(&ok, "", ""));
    let no_key = Configuration { url_prefix: "u".to_string(), secret: String::new() };
    assert!(request_button_disable(&no_key, "a", "b"));
    let no_url = Configuration { url_prefix: String::new(), secret: "s".to_string() };
    assert!(request_button_disable(&no_url, "a", "b"));
}

#[test]
fn save_row_class() {
    assert_eq!(save_button_attr(""), "is-hidden");
    assert_eq!(save_button_attr(" \t\n"), "is-hidden");
    assert_eq!(save_button_attr(" x"), "");
    assert_eq!(save_button_attr(" "), "is-hidden");
    assert_eq!(save_button_attr("\u{3000}\u{a0}"), "is-hidden");
    assert_eq!(save_button_attr(&format!(" \n{}\t", "x")), save_button_attr("x"));
}

#[test]
fn toggling_classes() {
    assert_eq!(toggle_class("", "is-hidden"), "is-hidden");
    assert_eq!(toggle_class("is-hidden", "is-hidden"), "");
    assert_eq!(toggle_class(&toggle_class("is-active", "is-active"), "is-active"), "is-active");
}
