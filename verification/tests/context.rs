//! Tests for the conversation context: message assembly and the token
//! window rule.

use jutella::message::{AssistantMessage, Message, SystemMessage, UserMessage};
use jutella::{Content, ContentPart, Context, ImagePart};

#[test]
fn context_empty() {
    let context = Context::default();

    let expected: Vec<Message> = vec![UserMessage::new_from_str("req").into()];
    assert_eq!(
        context.with_request(Content::Text(String::from("req"))),
        expected,
    );
}

#[test]
fn context_non_empty() {
    let mut context = Context::default();
    context.push(
        Content::Text(String::from("req1")),
        String::from("resp1"),
        2,
    );

    let expected: Vec<Message> = vec![
        UserMessage::new_from_str("req1").into(),
        AssistantMessage::new(String::from("resp1")).into(),
        UserMessage::new_from_str("req2").into(),
    ];
    assert_eq!(
        context.with_request(Content::Text(String::from("req2"))),
        expected,
    );
}

#[test]
fn context_empty_with_system_message() {
    let context = Context::new(Some(String::from("system")), 1, None, None);

    let expected: Vec<Message> = vec![
        SystemMessage::new(String::from("system")).into(),
        UserMessage::new_from_str("req").into(),
    ];
    assert_eq!(
        context.with_request(Content::Text(String::from("req"))),
        expected,
    );
}

#[test]
fn context_non_empty_with_system_message() {
    let mut context = Context::new(Some(String::from("system")), 1, None, None);
    context.push(
        Content::Text(String::from("req1")),
        String::from("resp1"),
        2,
    );

    let expected: Vec<Message> = vec![
        SystemMessage::new(String::from("system")).into(),
        UserMessage::new_from_str("req1").into(),
        AssistantMessage::new(String::from("resp1")).into(),
        UserMessage::new_from_str("req2").into(),
    ];
    assert_eq!(
        context.with_request(Content::Text(String::from("req2"))),
        expected,
    );
}

#[test]
fn min_history_tokens() {
    let system = "to to to to to".to_string();
    let request = "do do do do do".to_string();
    let response = "be be be be be".to_string();

    let mut context = Context::new(Some(system.to_string()), 5, Some(20), None);
    assert_eq!(context.conversation_len(), 0);

    // 15 tokens
    context.push(Content::Text(request.clone()), response.clone(), 10);
    assert_eq!(context.conversation_len(), 1);

    // 25 tokens
    context.push(Content::Text(request.clone()), response.clone(), 10);
    assert_eq!(context.conversation_len(), 2);

    // 25 tokens again: one transaction was discarded
    context.push(Content::Text(request.clone()), response.clone(), 10);
    assert_eq!(context.conversation_len(), 2);
}

#[test]
fn min_history_tokens_exact() {
    let request = "do do do do do".to_string();
    let response = "be be be be be".to_string();

    let mut context = Context::new(None, 0, Some(20), None);
    assert_eq!(context.conversation_len(), 0);

    // 10 tokens
    context.push(Content::Text(request.clone()), response.clone(), 10);
    assert_eq!(context.conversation_len(), 1);

    // 20 tokens
    context.push(Content::Text(request.clone()), response.clone(), 10);
    assert_eq!(context.conversation_len(), 2);

    // 20 tokens again: one transaction was discarded
    context.push(Content::Text(request.clone()), response.clone(), 10);
    assert_eq!(context.conversation_len(), 2);
}

#[test]
fn max_history_tokens() {
    let system = "to to to to to".to_string();
    let request = "do do do do do".to_string();
    let response = "be be be be be".to_string();

    let mut context = Context::new(Some(system.to_string()), 5, None, Some(30));
    assert_eq!(context.conversation_len(), 0);

    // 15 tokens
    context.push(Content::Text(request.clone()), response.clone(), 10);
    assert_eq!(context.conversation_len(), 1);

    // 25 tokens
    context.push(Content::Text(request.clone()), response.clone(), 10);
    assert_eq!(context.conversation_len(), 2);

    // 25 tokens again: one transaction was discarded
    context.push(Content::Text(request.clone()), response.clone(), 10);
    assert_eq!(context.conversation_len(), 2);
}

#[test]
fn max_history_tokens_exact() {
    let request = "do do do do do".to_string();
    let response = "be be be be be".to_string();

    let mut context = Context::new(None, 0, None, Some(30));
    assert_eq!(context.conversation_len(), 0);

    // 10 tokens
    context.push(Content::Text(request.clone()), response.clone(), 10);
    assert_eq!(context.conversation_len(), 1);

    // 20 tokens
    context.push(Content::Text(request.clone()), response.clone(), 10);
    assert_eq!(context.conversation_len(), 2);

    // 30 tokens
    context.push(Content::Text(request.clone()), response.clone(), 10);
    assert_eq!(context.conversation_len(), 3);

    // 30 tokens again: one transaction was discarded
    context.push(Content::Text(request.clone()), response.clone(), 10);
    assert_eq!(context.conversation_len(), 3);
}

#[test]
fn no_limits_never_discards() {
    let mut context = Context::new(Some("sys".to_string()), 1000, None, None);
    for i in 0..50usize {
        context.push(
            Content::Text(format!("req{i}")),
            format!("resp{i}"),
            1000,
        );
        assert_eq!(context.conversation_len(), i + 1);
    }
}

#[test]
fn min_only_keeps_all_turns_below_minimum() {
    let mut context = Context::new(None, 0, Some(1000), None);
    for i in 0..10usize {
        context.push(Content::Text("r".to_string()), "a".to_string(), 10);
        assert_eq!(context.conversation_len(), i + 1);
    }
    // total stays at 100 tokens, far below the minimum: nothing discarded
    assert_eq!(context.tokens(), 100);
}

#[test]
fn min_reached_keeps_one_crossing_turn() {
    let mut context = Context::new(None, 0, Some(20), None);
    context.push(Content::Text("r".to_string()), "a".to_string(), 15);
    context.push(Content::Text("r".to_string()), "a".to_string(), 15);
    // 15 tokens were already enough to reach 20 with the second turn's 15:
    // the first turn is the one crossing the minimum and stays
    assert_eq!(context.conversation_len(), 2);
    context.push(Content::Text("r".to_string()), "a".to_string(), 15);
    // scanning back: 15 < 20 so the second turn stays, 30 >= 20 stops
    assert_eq!(context.conversation_len(), 2);
    assert_eq!(context.tokens(), 30);
}

#[test]
fn system_message_alone_reaching_minimum_keeps_newest() {
    // the system message alone already reaches the minimum: older turns are
    // discarded on every push, the newest is always retained
    let mut context = Context::new(Some("long system".to_string()), 25, Some(20), None);
    context.push(Content::Text("r".to_string()), "a".to_string(), 10);
    assert_eq!(context.conversation_len(), 1);
    context.push(Content::Text("r".to_string()), "a".to_string(), 10);
    assert_eq!(context.conversation_len(), 1);
}

#[test]
fn single_turn_above_max_is_retained_alone() {
    let mut context = Context::new(None, 0, None, Some(30));
    context.push(Content::Text("r".to_string()), "a".to_string(), 10);
    context.push(Content::Text("r".to_string()), "a".to_string(), 10);
    assert_eq!(context.conversation_len(), 2);

    // a turn whose own cost already exceeds the maximum: older turns are
    // discarded, the newest stays alone and transiently exceeds the maximum
    context.push(Content::Text("big".to_string()), "answer".to_string(), 40);
    assert_eq!(context.conversation_len(), 1);
    assert_eq!(context.tokens(), 40);
}

#[test]
fn max_discards_several_older_turns_at_once() {
    let mut context = Context::new(None, 0, None, Some(25));
    context.push(Content::Text("r".to_string()), "a".to_string(), 10);
    context.push(Content::Text("r".to_string()), "a".to_string(), 10);
    context.push(Content::Text("r".to_string()), "a".to_string(), 20);
    // 20 + 10 > 25: both older turns go, the newest stays
    assert_eq!(context.conversation_len(), 1);
    assert_eq!(context.tokens(), 20);
}

#[test]
fn tokens_counts_system_message() {
    let mut context = Context::new(Some("sys".to_string()), 7, None, None);
    assert_eq!(context.tokens(), 7);
    context.push(Content::Text("r".to_string()), "a".to_string(), 5);
    assert_eq!(context.tokens(), 12);
}

#[test]
fn multipart_request_kept_in_context() {
    let parts = Content::ContentParts(vec![
        ContentPart::Image(ImagePart {
            url: "data:image/png;base64,AAAA".to_string(),
            detail: None,
        }),
        ContentPart::Text("what is this?".to_string()),
    ]);
    let mut context = Context::default();
    context.push(parts.clone(), "a picture".to_string(), 3);

    let messages = context.with_request(Content::Text("next".to_string()));
    assert_eq!(messages.len(), 3);
    let expected_user: Message = UserMessage::new(parts).into();
    assert_eq!(messages[0], expected_user);
    let expected_assistant: Message = AssistantMessage::new("a picture".to_string()).into();
    assert_eq!(messages[1], expected_assistant);
}
