use athena::dialogue_generation::{
    build_request, describe_failure, failure_message, ChoiceMessage, HttpStatus,
};
use athena::text::str_eq;

#[test]
fn request_carries_input_as_single_user_message() {
    let request = build_request("Hello there", "k-123");
    assert_eq!(request.url, "https://api.groq.com/openai/v1/chat/completions");
    assert_eq!(request.authorization, "Bearer k-123");
    assert_eq!(request.content_type, "application/json");
    assert_eq!(request.model, "llama3-8b-8192");
    assert_eq!(request.messages.len(), 1);
    assert_eq!(request.messages[0].role, "user");
    assert_eq!(request.messages[0].content, "Hello there");
}

#[test]
fn request_takes_empty_input_and_key() {
    let request = build_request("", "");
    assert_eq!(request.authorization, "Bearer ");
    assert_eq!(request.messages.len(), 1);
    assert_eq!(request.messages[0].content, "");
}

#[test]
fn choice_message_holds_role_and_content() {
    let message = ChoiceMessage { role: "assistant".to_string(), content: "Hi.".to_string() };
    let copy = message.clone();
    assert_eq!(copy.role, "assistant");
    assert_eq!(copy.content, "Hi.");
}

#[test]
fn status_has_three_digits() {
    assert!(HttpStatus::new(0).is_none());
    assert!(HttpStatus::new(99).is_none());
    assert!(HttpStatus::new(100).is_some());
    assert!(HttpStatus::new(999).is_some());
    assert!(HttpStatus::new(1000).is_none());
    assert!(HttpStatus::new(u16::MAX).is_none());
    assert_eq!(HttpStatus::new(404).unwrap().code(), 404);
}

#[test]
fn success_is_the_two_hundreds() {
    assert!(!HttpStatus::new(100).unwrap().is_success());
    assert!(!HttpStatus::new(199).unwrap().is_success());
    assert!(HttpStatus::new(200).unwrap().is_success());
    assert!(HttpStatus::new(204).unwrap().is_success());
    assert!(HttpStatus::new(299).unwrap().is_success());
    assert!(!HttpStatus::new(300).unwrap().is_success());
    assert!(!HttpStatus::new(404).unwrap().is_success());
    assert!(!HttpStatus::new(500).unwrap().is_success());
    assert!(!HttpStatus::new(999).unwrap().is_success());
}

#[test]
fn failure_is_described_with_status_line_and_body() {
    assert_eq!(
        describe_failure("404 Not Found", Some("no such model".to_string())),
        "Request failed with status: 404 Not Found - no such model"
    );
    assert_eq!(
        describe_failure("", Some(String::new())),
        "Request failed with status:  - "
    );
}

#[test]
fn unreadable_body_is_described_as_such() {
    assert_eq!(
        describe_failure("500 Internal Server Error", None),
        "Request failed with status: 500 Internal Server Error - Failed to read error message"
    );
}

#[test]
fn failure_message_displays_the_status() {
    let unauthorized = HttpStatus::new(401).unwrap();
    assert_eq!(
        failure_message(&unauthorized, Some("invalid api key".to_string())),
        "Request failed with status: 401 Unauthorized - invalid api key"
    );
    let unavailable = HttpStatus::new(503).unwrap();
    assert_eq!(
        failure_message(&unavailable, None),
        "Request failed with status: 503 Service Unavailable - Failed to read error message"
    );
}

#[test]
fn failure_message_displays_a_status_without_reason() {
    let odd = HttpStatus::new(799).unwrap();
    assert_eq!(
        failure_message(&odd, Some("?".to_string())),
        "Request failed with status: 799 <unknown status code> - ?"
    );
}

#[test]
fn strings_are_compared_by_content() {
    assert!(str_eq("", ""));
    assert!(str_eq("Idle", "Idle"));
    assert!(!str_eq("Idle", "idle"));
    assert!(!str_eq("Idle", "Idl"));
    assert!(!str_eq("Idl", "Idle"));
    assert!(!str_eq("", " "));
    assert!(str_eq("héllo wörld", "héllo wörld"));
    assert!(!str_eq("héllo", "hello"));
    assert!(str_eq("象", "象"));
    assert!(!str_eq("象", "豹"));
    let owned = String::from("Talk");
    assert!(str_eq(owned.as_str(), "Talk"));
}
