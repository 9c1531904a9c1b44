//! Tests for the stream machine and the delta decoder.

use jutella::decode::decode_delta;
use jutella::message::{AssistantMessage, Message};
use jutella::stream::{State, StepResult, StreamEvent};
use jutella::{Content, Context, Delta, Error, StreamMachine, TokenUsage};

fn content_chunk(text: &str) -> String {
    format!(r#"{{"choices":[{{"delta":{{"content":"{text}"}}}}]}}"#)
}

fn reasoning_chunk(text: &str) -> String {
    format!(r#"{{"choices":[{{"delta":{{"reasoning":"{text}"}}}}]}}"#)
}

fn usage_chunk() -> String {
    r#"{"choices":[],"usage":{"prompt_tokens":3,"completion_tokens":7,"total_tokens":10}}"#
        .to_string()
}

fn expected_usage() -> TokenUsage {
    TokenUsage {
        tokens_in: 3,
        tokens_in_cached: None,
        tokens_out: 7,
        tokens_reasoning: None,
    }
}

fn assistant_response(context: &Context) -> Option<String> {
    let messages = context.with_request(Content::Text("probe".to_string()));
    messages.into_iter().find_map(|m| match m {
        Message::Assistant(AssistantMessage { content, .. }) => content,
        _ => None,
    })
}

#[test]
fn stream_content_then_usage_then_done() {
    let mut context = Context::default();
    let mut machine = StreamMachine::new(Content::Text("q".to_string()));

    let r = machine.step(&mut context, StreamEvent::Data(content_chunk("Hi")), 0);
    assert_eq!(r, StepResult::Item(Delta::Content("Hi".to_string())));
    assert_eq!(context.conversation_len(), 0);

    let r = machine.step(&mut context, StreamEvent::Data(content_chunk(" there")), 0);
    assert_eq!(r, StepResult::Item(Delta::Content(" there".to_string())));
    assert_eq!(context.conversation_len(), 0);

    // the turn is priced before the event that completes it
    let cost = machine.partial_response().map(|s| s.len()).unwrap_or(0);
    assert_eq!(cost, 8);

    let r = machine.step(&mut context, StreamEvent::Data(usage_chunk()), cost);
    assert_eq!(r, StepResult::Item(Delta::Usage(expected_usage())));
    assert_eq!(context.conversation_len(), 1);

    let r = machine.step(&mut context, StreamEvent::Data("[DONE]".to_string()), 0);
    assert_eq!(r, StepResult::Continue);
    assert_eq!(context.conversation_len(), 1);

    let r = machine.step(&mut context, StreamEvent::End, 0);
    assert_eq!(r, StepResult::Finished);

    // the context gained exactly one turn with the accumulated response
    assert_eq!(context.conversation_len(), 1);
    assert_eq!(assistant_response(&context), Some("Hi there".to_string()));
}

#[test]
fn stream_reasoning_after_content_is_protocol_violation() {
    let mut context = Context::default();
    let mut machine = StreamMachine::new(Content::Text("q".to_string()));

    let r = machine.step(&mut context, StreamEvent::Data(content_chunk("x")), 0);
    assert_eq!(r, StepResult::Item(Delta::Content("x".to_string())));

    let cost = machine.partial_response().map(|s| s.len()).unwrap_or(0);
    let r = machine.step(&mut context, StreamEvent::Data(reasoning_chunk("y")), cost);
    assert_eq!(
        r,
        StepResult::Failed(Error::UnexpectedStreamEvent("reasoning after content"))
    );
    assert!(machine.is_terminated());

    // the partial response was flushed before terminating
    assert_eq!(context.conversation_len(), 1);
    assert_eq!(assistant_response(&context), Some("x".to_string()));
}

#[test]
fn stream_reasoning_then_content() {
    let mut context = Context::default();
    let mut machine = StreamMachine::new(Content::Text("q".to_string()));

    let r = machine.step(&mut context, StreamEvent::Data(reasoning_chunk("let me think")), 0);
    assert_eq!(r, StepResult::Item(Delta::Reasoning("let me think".to_string())));

    let r = machine.step(&mut context, StreamEvent::Data(content_chunk("two")), 0);
    assert_eq!(r, StepResult::Item(Delta::Content("two".to_string())));

    let r = machine.step(&mut context, StreamEvent::Data("[DONE]".to_string()), 3);
    assert_eq!(r, StepResult::Continue);

    let r = machine.step(&mut context, StreamEvent::End, 0);
    assert_eq!(r, StepResult::Finished);
    assert_eq!(context.conversation_len(), 1);
    assert_eq!(assistant_response(&context), Some("two".to_string()));
}

#[test]
fn stream_transport_error_flushes_partial() {
    let mut context = Context::default();
    let mut machine = StreamMachine::new(Content::Text("q".to_string()));

    machine.step(&mut context, StreamEvent::Data(content_chunk("part")), 0);
    let cost = machine.partial_response().map(|s| s.len()).unwrap_or(0);
    let r = machine.step(
        &mut context,
        StreamEvent::TransportError("connection reset".to_string()),
        cost,
    );
    assert_eq!(
        r,
        StepResult::Failed(Error::StreamError("connection reset".to_string()))
    );
    assert!(machine.is_terminated());
    assert_eq!(context.conversation_len(), 1);
    assert_eq!(assistant_response(&context), Some("part".to_string()));
}

#[test]
fn stream_natural_end_flushes_partial() {
    let mut context = Context::default();
    let mut machine = StreamMachine::new(Content::Text("q".to_string()));

    machine.step(&mut context, StreamEvent::Data(content_chunk("half")), 0);
    let r = machine.step(&mut context, StreamEvent::End, 4);
    assert_eq!(r, StepResult::Finished);
    assert!(machine.is_terminated());
    assert_eq!(context.conversation_len(), 1);
    assert_eq!(assistant_response(&context), Some("half".to_string()));
}

#[test]
fn stream_events_after_done_are_discarded() {
    let mut context = Context::default();
    let mut machine = StreamMachine::new(Content::Text("q".to_string()));

    machine.step(&mut context, StreamEvent::Data(content_chunk("done")), 0);
    let cost = machine.partial_response().map(|s| s.len()).unwrap_or(0);
    machine.step(&mut context, StreamEvent::Data("[DONE]".to_string()), cost);
    assert_eq!(context.conversation_len(), 1);

    // a late transport error is not surfaced; the stream ends cleanly
    let r = machine.step(
        &mut context,
        StreamEvent::TransportError("late".to_string()),
        0,
    );
    assert_eq!(r, StepResult::Finished);
    assert!(machine.is_terminated());
    assert_eq!(context.conversation_len(), 1);

    // and the machine stays terminated
    let r = machine.step(&mut context, StreamEvent::End, 0);
    assert_eq!(r, StepResult::Finished);
}

#[test]
fn stream_cancellation_forfeits_partial() {
    let mut context = Context::default();
    let mut machine = StreamMachine::new(Content::Text("q".to_string()));
    machine.step(&mut context, StreamEvent::Data(content_chunk("lost")), 0);
    drop(machine);
    // nothing was written: the context mutation happens only on completion
    assert_eq!(context.conversation_len(), 0);
}

#[test]
fn stream_duplicate_usage_is_error() {
    let mut context = Context::default();
    let mut machine = StreamMachine::new(Content::Text("q".to_string()));

    let r = machine.step(&mut context, StreamEvent::Data(usage_chunk()), 0);
    assert_eq!(r, StepResult::Item(Delta::Usage(expected_usage())));

    let r = machine.step(&mut context, StreamEvent::Data(usage_chunk()), 0);
    assert_eq!(
        r,
        StepResult::Failed(Error::UnexpectedStreamEvent("duplicate usage"))
    );
    assert_eq!(context.conversation_len(), 0);
}

#[test]
fn stream_content_after_usage_is_error() {
    let mut context = Context::default();
    let mut machine = StreamMachine::new(Content::Text("q".to_string()));

    machine.step(&mut context, StreamEvent::Data(usage_chunk()), 0);
    let r = machine.step(&mut context, StreamEvent::Data(content_chunk("late")), 0);
    assert_eq!(
        r,
        StepResult::Failed(Error::UnexpectedStreamEvent("content after usage"))
    );
}

#[test]
fn stream_reasoning_after_usage_is_error() {
    let mut context = Context::default();
    let mut machine = StreamMachine::new(Content::Text("q".to_string()));

    machine.step(&mut context, StreamEvent::Data(usage_chunk()), 0);
    let r = machine.step(&mut context, StreamEvent::Data(reasoning_chunk("late")), 0);
    assert_eq!(
        r,
        StepResult::Failed(Error::UnexpectedStreamEvent("reasoning after usage"))
    );
}

#[test]
fn decode_content_chunk() {
    assert_eq!(
        decode_delta(&content_chunk("Hi")),
        Ok(Some(Delta::Content("Hi".to_string())))
    );
}

#[test]
fn decode_reasoning_wins_over_content() {
    let payload = r#"{"choices":[{"delta":{"reasoning":"r","content":"c"}}]}"#;
    assert_eq!(
        decode_delta(payload),
        Ok(Some(Delta::Reasoning("r".to_string())))
    );
}

#[test]
fn decode_usage_chunk_with_details() {
    let payload = r#"{"choices":[],"usage":{"prompt_tokens":11,"completion_tokens":22,"prompt_tokens_details":{"cached_tokens":5},"completion_tokens_details":{"reasoning_tokens":9}}}"#;
    assert_eq!(
        decode_delta(payload),
        Ok(Some(Delta::Usage(TokenUsage {
            tokens_in: 11,
            tokens_in_cached: Some(5),
            tokens_out: 22,
            tokens_reasoning: Some(9),
        })))
    );
}

#[test]
fn decode_refusal_is_error() {
    let payload = r#"{"choices":[{"delta":{"refusal":"no"}}]}"#;
    assert_eq!(decode_delta(payload), Err(Error::Refusal("no".to_string())));
}

#[test]
fn decode_finish_reason_is_ignored() {
    let payload = r#"{"choices":[{"delta":{},"finish_reason":"stop"}]}"#;
    assert_eq!(decode_delta(payload), Ok(None));
}

#[test]
fn decode_empty_delta_is_missing_content() {
    let payload = r#"{"choices":[{"delta":{}}]}"#;
    assert_eq!(decode_delta(payload), Err(Error::NoContent));
}

#[test]
fn decode_no_choices_no_usage_is_error() {
    let payload = r#"{"choices":[]}"#;
    assert_eq!(decode_delta(payload), Err(Error::NoChoices));
}

#[test]
fn decode_invalid_usage_is_error() {
    let payload = r#"{"choices":[],"usage":{"prompt_tokens":"many"}}"#;
    assert!(matches!(decode_delta(payload), Err(Error::DeltaJsonError(_))));
}

#[test]
fn decode_missing_delta_is_error() {
    let payload = r#"{"choices":[{"finish_reason":"stop"}]}"#;
    assert!(matches!(decode_delta(payload), Err(Error::DeltaJsonError(_))));
}

#[test]
fn decode_choices_not_array_is_error() {
    let payload = r#"{"choices":"nope"}"#;
    assert!(matches!(decode_delta(payload), Err(Error::DeltaJsonError(_))));
}

#[test]
fn decode_invalid_json_is_error() {
    let r = decode_delta("not json at all");
    assert!(matches!(r, Err(Error::DeltaJsonError(_))));
}

#[test]
fn decode_takes_last_choice() {
    let payload =
        r#"{"choices":[{"delta":{"content":"first"}},{"delta":{"content":"second"}}]}"#;
    assert_eq!(
        decode_delta(payload),
        Ok(Some(Delta::Content("second".to_string())))
    );
}

#[test]
fn finalize_hands_back_accumulated_response() {
    let mut state = State::ReceivingContent {
        partial_response: "abc".to_string(),
    };
    let r = state.finalize(State::Terminated);
    assert_eq!(r, Some("abc".to_string()));
    assert!(matches!(state, State::Terminated));

    let mut state = State::ReceivingContent {
        partial_response: String::new(),
    };
    assert_eq!(state.finalize(State::Terminated), None);

    let mut state = State::WaitingForDone;
    assert_eq!(state.finalize(State::Terminated), None);
}
