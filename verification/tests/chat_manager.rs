use backend::messages::chat_manager::{ChatError, ChatManager, ChatManagerConfig, SendMessageInput};
use backend::messages::message_censor::MessageCensorer;
use backend::messages::message_censor_impl::MessageCensorerImpl;
use backend::rate_limiter::IpKey;
use std::collections::HashSet;
use std::sync::Mutex;

const MAX_MESSAGE_LENGTH: usize = 400;
const RATE_LIMIT_TIMEOUT: u64 = 1;
const NOW: u64 = 5_000;

struct MockMessageCensorer {
    output: Option<String>,
    calls: Mutex<Vec<String>>,
}

impl MessageCensorer for &MockMessageCensorer {
    fn censor(&self, message: &str) -> String {
        (*self).censor(message)
    }
}

impl MockMessageCensorer {
    fn echoing() -> Self {
        MockMessageCensorer { output: None, calls: Mutex::new(Vec::new()) }
    }
    fn returning(s: &str) -> Self {
        MockMessageCensorer { output: Some(s.to_string()), calls: Mutex::new(Vec::new()) }
    }
}

impl MessageCensorer for MockMessageCensorer {
    fn censor(&self, message: &str) -> String {
        self.calls.lock().unwrap().push(message.to_string());
        match &self.output {
            Some(s) => s.clone(),
            None => message.to_string(),
        }
    }
}

fn config(max: usize) -> ChatManagerConfig {
    ChatManagerConfig { max_message_length: max, rate_limit_timeout_ms: RATE_LIMIT_TIMEOUT }
}

fn manager(censorer: MockMessageCensorer) -> ChatManager<MockMessageCensorer> {
    ChatManager::new(config(MAX_MESSAGE_LENGTH), censorer)
}

fn user(msg: &str, ip: u128) -> SendMessageInput {
    SendMessageInput { text: msg.to_string(), sender_id: ip.to_string(), sender_ip: IpKey::V6(ip), reply_to: None }
}

#[test]
fn it_must_not_refuse_massage_if_length_is_shorter_after_sanitization() {
    let cases = [format!("   {}   ", "h".repeat(9)), format!("\n\n{}\n\n", "h".repeat(9))];
    for (i, message) in cases.iter().enumerate() {
        let mut m = ChatManager::new(config(9), MockMessageCensorer::echoing());
        let result = m.handle_message(user(message, i as u128), NOW);
        assert!(result.is_ok());
        assert_eq!(result.unwrap().text, "h".repeat(9));
    }
}

#[test]
fn it_must_call_censorer_with_trimmed_message() {
    let censor = MockMessageCensorer::echoing();
    let mut m = ChatManager::new(config(MAX_MESSAGE_LENGTH), &censor);
    m.handle_message(user(" hello ", 1), NOW).unwrap();
    assert_eq!(censor.calls.lock().unwrap()[0], "hello");
}

#[test]
fn censor_sees_text_trimmed_of_unicode_whitespace() {
    let censor = MockMessageCensorer::echoing();
    let mut m = ChatManager::new(config(MAX_MESSAGE_LENGTH), &censor);
    m.handle_message(user("\u{3000}\t b y e\u{2029}\u{a0}", 2), NOW).unwrap();
    assert_eq!(censor.calls.lock().unwrap()[0], "b y e");
}

#[test]
fn it_should_match_length_for_censored_text() {
    for censor_output in ["c".repeat(MAX_MESSAGE_LENGTH + 1), String::new()] {
        let mut m = manager(MockMessageCensorer::returning(&censor_output));
        let err = m.handle_message(user("not-important", 1), NOW).unwrap_err();
        assert_eq!(err, ChatError::InvalidMessageLength);
    }
}

#[test]
fn it_must_generate_new_id_for_each_message() {
    let mut m = manager(MockMessageCensorer::echoing());
    let mut ids = HashSet::new();
    for i in 0..100000u128 {
        let r = m.handle_message(user("hello", i), NOW).unwrap();
        assert!(ids.insert(r.id), "id is not unique");
    }
}

#[test]
fn it_must_rate_limit_requests() {
    let mut m = manager(MockMessageCensorer::echoing());
    let ip = IpKey::V6(0x2001_0db8_0000_0000_0000_0000_0000_0001);
    m.handle_message(SendMessageInput { reply_to: None, sender_id: "1".to_string(), sender_ip: ip, text: "hello".to_string() }, NOW)
        .unwrap();
    let err = m
        .handle_message(SendMessageInput { reply_to: None, sender_id: "2".to_string(), sender_ip: ip, text: "hello2".to_string() }, NOW)
        .unwrap_err();
    assert_eq!(err, ChatError::RateLimited);
}

#[test]
fn it_must_return_censored_text() {
    let mut m = manager(MockMessageCensorer::returning("censored"));
    let result = m.handle_message(user("hello", 1), NOW).unwrap();
    assert_eq!(result.text, "censored");
}

#[test]
fn ids_are_consecutive_and_refusals_take_none() {
    let mut m = ChatManager::new(config(MAX_MESSAGE_LENGTH), MessageCensorerImpl {});
    let a = m.handle_message(user("a", 1), NOW).unwrap();
    assert_eq!(m.handle_message(user("   ", 2), NOW), Err(ChatError::InvalidMessageLength));
    assert_eq!(m.handle_message(user("b", 1), NOW), Err(ChatError::RateLimited));
    let b = m.handle_message(user("b", 2), NOW).unwrap();
    assert_eq!(a.id, 0);
    assert_eq!(b.id, 1);
    assert_eq!(b.sender_id, "2");
    assert_eq!(b.reply_to, None);
}

#[test]
fn length_is_counted_in_bytes() {
    let mut m = ChatManager::new(config(4), MessageCensorerImpl {});
    assert_eq!(m.handle_message(user("ééé", 1), NOW), Err(ChatError::InvalidMessageLength));
    assert!(m.handle_message(user("éé", 1), NOW).is_ok());
}

#[test]
fn sender_is_free_after_the_wait() {
    let mut m = ChatManager::new(
        ChatManagerConfig { max_message_length: 10, rate_limit_timeout_ms: 100 },
        MessageCensorerImpl {},
    );
    m.handle_message(user("a", 1), NOW).unwrap();
    assert_eq!(m.handle_message(user("a", 1), NOW + 99), Err(ChatError::RateLimited));
    m.collect_garbage(NOW + 50);
    assert_eq!(m.handle_message(user("a", 1), NOW + 99), Err(ChatError::RateLimited));
    assert!(m.handle_message(user("a", 1), NOW + 100).is_ok());
}

#[test]
fn accept_censored_takes_the_text_as_given() {
    let mut m = ChatManager::new(config(5), MessageCensorerImpl {});
    assert_eq!(m.accept_censored("  ab ".to_string(), "x".to_string(), IpKey::V4(9), NOW).unwrap().text, "  ab ");
    assert_eq!(m.accept_censored("abcdef".to_string(), "x".to_string(), IpKey::V4(10), NOW), Err(ChatError::InvalidMessageLength));
}
