//! Streaming of a chatbot response: a state machine that consumes raw
//! transport events one at a time, yields semantic deltas in order, enforces
//! the response protocol, and writes the finished turn into the conversation
//! context exactly once.

use crate::client::TokenUsage;
use crate::context::{pushed, Context};
use crate::decode::{decode_delta, decode_matches};
use crate::json::json_ok;
use crate::error::Error;
use crate::message::{Content, ContentV};
use vstd::prelude::*;

verus! {

/// Chat completion delta event.
#[derive(Debug, PartialEq, Eq)]
pub enum Delta {
    /// Reasoning delta. Returned before the content.
    Reasoning(String),
    /// Assistant response delta.
    Content(String),
    /// Token usage info. Always the last event.
    Usage(TokenUsage),
}

/// Stream state.
#[derive(Debug)]
pub enum State {
    /// No delta has arrived yet.
    WaitingForData,
    /// Reasoning deltas are arriving.
    ReceivingReasoning,
    /// Content deltas are arriving and accumulating.
    ReceivingContent {
        /// The response accumulated so far.
        partial_response: String,
    },
    /// The usage record arrived; only the sentinel may follow.
    WaitingForDone,
    /// The sentinel arrived; waiting for the underlying stream to end.
    WaitingForEndOfStream,
    /// The stream is over; nothing more is accepted or yielded.
    Terminated,
}

/// The response that leaves a state when it is finalized: the non-empty
/// partial response accumulated so far, if any.
pub open spec fn finalize_result(s: State) -> Option<String> {
    match s {
        State::ReceivingContent { partial_response } => if partial_response@.len() > 0 {
            Some(partial_response)
        } else {
            None
        },
        _ => None,
    }
}

impl State {
    /// Transition to `new_state`, handing back the response accumulated so
    /// far, if there is a non-empty one.
    pub fn finalize(&mut self, new_state: State) -> (r: Option<String>)
        ensures
            *final(self) == new_state,
            r == finalize_result(*old(self)),
    {
        let mut old_state = new_state;
        core::mem::swap(self, &mut old_state);
        match old_state {
            State::ReceivingContent { partial_response } => {
                if !partial_response.as_str().is_empty() {
                    Some(partial_response)
                } else {
                    None
                }
            },
            _ => None,
        }
    }
}

/// One raw event of the underlying transport stream.
#[derive(Debug, PartialEq, Eq)]
pub enum StreamEvent {
    /// A payload arrived.
    Data(String),
    /// The transport failed, with a description of the failure.
    TransportError(String),
    /// The underlying stream ended.
    End,
}

/// What one step of the machine asks the caller to do.
#[derive(Debug, PartialEq, Eq)]
pub enum StepResult {
    /// Yield this delta to the consumer.
    Item(Delta),
    /// Yield this error to the consumer; the stream is over.
    Failed(Error),
    /// Nothing to yield for this event; feed the next one.
    Continue,
    /// The stream is over; yield nothing further.
    Finished,
}

/// States in which the response is complete: the machine no longer
/// accumulates content and will never write into the context again.
pub open spec fn completed(s: State) -> bool {
    s is WaitingForDone || s is WaitingForEndOfStream || s is Terminated
}

/// Law: a completed state never flushes: once the finished turn was written
/// into the context (or given up), neither a decoded delta nor the end of
/// the stream writes a second one.
pub proof fn lemma_completed_never_flushes(s: State, d: Result<Option<Delta>, Error>)
    requires
        completed(s),
    ensures
        flush_on_decoded(s, d) is None,
        finalize_result(s) is None,
{
}

/// What the machine flushes into the context on a decoded delta: the
/// accumulated partial response leaves the machine when a decode error ends
/// the stream, when the usage record ends the content phase, or when a
/// reasoning delta violates the protocol during the content phase.
pub open spec fn flush_on_decoded(s: State, d: Result<Option<Delta>, Error>) -> Option<String> {
    match d {
        Err(_) => finalize_result(s),
        Ok(Some(Delta::Usage(_))) => finalize_result(s),
        Ok(Some(Delta::Reasoning(_))) => if s is ReceivingContent {
            finalize_result(s)
        } else {
            None
        },
        _ => None,
    }
}

/// How a step changed the context: where something was flushed, exactly one
/// turn holding the request and the flushed response was pushed, at the
/// given cost; where nothing was flushed, the context is unchanged.
pub open spec fn context_after_flush(
    pre: crate::context::ContextV,
    post: crate::context::ContextV,
    request: ContentV,
    flushed: Option<String>,
    tokens: nat,
) -> bool {
    match flushed {
        Some(resp) => post == pushed(pre, request, resp@, tokens),
        None => post == pre,
    }
}

/// The transition table of the response protocol: how one decoded delta
/// (or decode failure) moves the machine from `pre` to `post`, and what the
/// step yields. The response flushed alongside is `flush_on_decoded`.
pub open spec fn table_matches(
    pre: State,
    d: Result<Option<Delta>, Error>,
    post: State,
    r: StepResult,
) -> bool {
    match d {
        Err(e) => post is Terminated && r == StepResult::Failed(e),
        Ok(None) => post == pre && r == StepResult::Continue,
        Ok(Some(delta)) => match pre {
            State::WaitingForData | State::ReceivingReasoning => match delta {
                Delta::Reasoning(t) => post is ReceivingReasoning && r == StepResult::Item(
                    Delta::Reasoning(t),
                ),
                Delta::Content(t) => (post matches State::ReceivingContent { partial_response }
                    && partial_response@ == t@) && r == StepResult::Item(Delta::Content(t)),
                Delta::Usage(u) => post is WaitingForDone && r == StepResult::Item(
                    Delta::Usage(u),
                ),
            },
            State::ReceivingContent { partial_response } => match delta {
                Delta::Reasoning(_) => post is Terminated && (r matches StepResult::Failed(e)
                    && e matches Error::UnexpectedStreamEvent(msg) && msg@
                    == "reasoning after content"@),
                Delta::Content(t) => (post matches State::ReceivingContent {
                    partial_response: p2,
                } && p2@ == partial_response@ + t@) && r == StepResult::Item(Delta::Content(t)),
                Delta::Usage(u) => post is WaitingForDone && r == StepResult::Item(
                    Delta::Usage(u),
                ),
            },
            State::WaitingForDone => post is Terminated && (match delta {
                Delta::Reasoning(_) => r matches StepResult::Failed(e) && e matches
                    Error::UnexpectedStreamEvent(msg) && msg@ == "reasoning after usage"@,
                Delta::Content(_) => r matches StepResult::Failed(e) && e matches
                    Error::UnexpectedStreamEvent(msg) && msg@ == "content after usage"@,
                Delta::Usage(_) => r matches StepResult::Failed(e) && e matches
                    Error::UnexpectedStreamEvent(msg) && msg@ == "duplicate usage"@,
            }),
            State::WaitingForEndOfStream | State::Terminated => true,
        },
    }
}

/// The machine driving one in-flight streamed response.
pub struct StreamMachine {
    state: State,
    request: Content,
}

impl StreamMachine {
    /// The machine's current protocol state.
    pub closed spec fn state_view(&self) -> State {
        self.state
    }

    /// The request this response answers, as pushed into the context on
    /// completion.
    pub closed spec fn request_view(&self) -> ContentV {
        self.request@
    }

    /// A machine for one response to `request`, in the initial state.
    pub fn new(request: Content) -> (r: Self)
        ensures
            r.state_view() is WaitingForData,
            r.request_view() == request@,
    {
        StreamMachine { state: State::WaitingForData, request }
    }

    /// Whether the stream has terminated: no further item will be yielded.
    pub fn is_terminated(&self) -> (r: bool)
        ensures
            r == (self.state_view() is Terminated),
    {
        matches!(self.state, State::Terminated)
    }

    /// The response that would be flushed if the stream ended now: the
    /// non-empty accumulated partial response, if any. Callers use it to
    /// price the turn before feeding the next event.
    pub fn partial_response(&self) -> (r: Option<&String>)
        ensures
            r matches Some(p) ==> finalize_result(self.state_view()) == Some(*p),
            r is None ==> finalize_result(self.state_view()) is None,
    {
        match &self.state {
            State::ReceivingContent { partial_response } => {
                if !partial_response.as_str().is_empty() {
                    Some(partial_response)
                } else {
                    None
                }
            },
            _ => None,
        }
    }

    /// Apply one decoded delta (or decode failure) to the machine: the
    /// transition table of the response protocol. `flush_tokens` is the cost
    /// recorded for the turn if this delta completes it.
    pub fn apply_decoded(
        &mut self,
        ctx: &mut Context,
        d: Result<Option<Delta>, Error>,
        flush_tokens: usize,
    ) -> (r: StepResult)
        requires
            !(old(self).state_view() is WaitingForEndOfStream),
            !(old(self).state_view() is Terminated),
        ensures
            final(self).request_view() == old(self).request_view(),
            context_after_flush(
                old(ctx)@,
                final(ctx)@,
                old(self).request_view(),
                flush_on_decoded(old(self).state_view(), d),
                flush_tokens as nat,
            ),
            completed(old(self).state_view()) ==> completed(final(self).state_view()),
            table_matches(old(self).state_view(), d, final(self).state_view(), r),
    {
        let delta = match d {
            Ok(Some(delta)) => delta,
            Ok(None) => {
                return StepResult::Continue;
            },
            Err(e) => {
                let flushed = self.state.finalize(State::Terminated);
                if let Some(response) = flushed {
                    ctx.push(self.request.clone(), response, flush_tokens);
                }
                return StepResult::Failed(e);
            },
        };
        if matches!(self.state, State::WaitingForData | State::ReceivingReasoning) {
            match delta {
                Delta::Reasoning(t) => {
                    self.state = State::ReceivingReasoning;
                    StepResult::Item(Delta::Reasoning(t))
                },
                Delta::Content(t) => {
                    self.state = State::ReceivingContent { partial_response: t.clone() };
                    StepResult::Item(Delta::Content(t))
                },
                Delta::Usage(u) => {
                    self.state = State::WaitingForDone;
                    StepResult::Item(Delta::Usage(u))
                },
            }
        } else if matches!(self.state, State::ReceivingContent { .. }) {
            match delta {
                Delta::Reasoning(_) => {
                    let flushed = self.state.finalize(State::Terminated);
                    if let Some(response) = flushed {
                        ctx.push(self.request.clone(), response, flush_tokens);
                    }
                    StepResult::Failed(Error::UnexpectedStreamEvent("reasoning after content"))
                },
                Delta::Content(t) => {
                    match &mut self.state {
                        State::ReceivingContent { partial_response } => {
                            partial_response.append(t.as_str());
                        },
                        _ => {},
                    }
                    StepResult::Item(Delta::Content(t))
                },
                Delta::Usage(u) => {
                    let flushed = self.state.finalize(State::WaitingForDone);
                    if let Some(response) = flushed {
                        ctx.push(self.request.clone(), response, flush_tokens);
                    }
                    StepResult::Item(Delta::Usage(u))
                },
            }
        } else {
            self.state = State::Terminated;
            match delta {
                Delta::Reasoning(_) => StepResult::Failed(
                    Error::UnexpectedStreamEvent("reasoning after usage"),
                ),
                Delta::Content(_) => StepResult::Failed(
                    Error::UnexpectedStreamEvent("content after usage"),
                ),
                Delta::Usage(_) => StepResult::Failed(
                    Error::UnexpectedStreamEvent("duplicate usage"),
                ),
            }
        }
    }

    /// Feed one raw transport event to the machine. `flush_tokens` is the
    /// cost recorded for the turn if this event completes it.
    ///
    /// The sentinel payload flushes the accumulated response and waits for
    /// the stream to end, yielding nothing. After the sentinel, any further
    /// payload, transport error or the end of the stream ends the response
    /// cleanly: nothing more is decoded and a late transport error is not
    /// surfaced. A transport error before the sentinel flushes the
    /// accumulated response and is surfaced as the terminal error.
    pub fn step(&mut self, ctx: &mut Context, event: StreamEvent, flush_tokens: usize) -> (r:
        StepResult)
        ensures
            final(self).request_view() == old(self).request_view(),
            final(ctx)@ == old(ctx)@ || (exists|resp: Seq<char>|
                final(ctx)@ == pushed(
                    old(ctx)@,
                    old(self).request_view(),
                    resp,
                    flush_tokens as nat,
                )),
            !(old(self).state_view() is ReceivingContent) ==> final(ctx)@ == old(ctx)@,
            completed(old(self).state_view()) ==> completed(final(self).state_view()),
            old(self).state_view() is Terminated ==> (final(self).state_view() is Terminated && r
                == StepResult::Finished && final(ctx)@ == old(ctx)@),
            old(self).state_view() is WaitingForEndOfStream ==> (final(self).state_view()
                is Terminated && r == StepResult::Finished && final(ctx)@ == old(ctx)@),
            !(old(self).state_view() is Terminated) && !(old(self).state_view()
                is WaitingForEndOfStream) ==> {
                &&& event matches StreamEvent::Data(p) ==> (p@ == "[DONE]"@ ==> (final(self).state_view() is WaitingForEndOfStream && r == StepResult::Continue
                    && context_after_flush(
                    old(ctx)@,
                    final(ctx)@,
                    old(self).request_view(),
                    finalize_result(old(self).state_view()),
                    flush_tokens as nat,
                )))
                &&& event matches StreamEvent::TransportError(m) ==> (final(self).state_view()
                    is Terminated && r == StepResult::Failed(Error::StreamError(m))
                    && context_after_flush(
                    old(ctx)@,
                    final(ctx)@,
                    old(self).request_view(),
                    finalize_result(old(self).state_view()),
                    flush_tokens as nat,
                ))
                &&& event is End ==> (final(self).state_view() is Terminated && r
                    == StepResult::Finished && context_after_flush(
                    old(ctx)@,
                    final(ctx)@,
                    old(self).request_view(),
                    finalize_result(old(self).state_view()),
                    flush_tokens as nat,
                ))
                &&& event matches StreamEvent::Data(p) ==> (p@ != "[DONE]"@ ==> (exists|
                    d: Result<Option<Delta>, Error>,
                |
                    {
                        &&& #[trigger] table_matches(
                            old(self).state_view(),
                            d,
                            final(self).state_view(),
                            r,
                        )
                        &&& json_ok(p@) ==> decode_matches(p@, d)
                        &&& !json_ok(p@) ==> (d matches Err(e) && e is DeltaJsonError)
                        &&& context_after_flush(
                            old(ctx)@,
                            final(ctx)@,
                            old(self).request_view(),
                            flush_on_decoded(old(self).state_view(), d),
                            flush_tokens as nat,
                        )
                    }))
            },
    {
        if matches!(self.state, State::Terminated) {
            return StepResult::Finished;
        }
        if matches!(self.state, State::WaitingForEndOfStream) {
            self.state = State::Terminated;
            return StepResult::Finished;
        }
        match event {
            StreamEvent::Data(payload) => {
                let done: String = "[DONE]".to_owned();
                if payload == done {
                    let flushed = self.state.finalize(State::WaitingForEndOfStream);
                    if let Some(response) = flushed {
                        ctx.push(self.request.clone(), response, flush_tokens);
                    }
                    StepResult::Continue
                } else {
                    let d = decode_delta(payload.as_str());
                    let ghost gd = d;
                    let res = self.apply_decoded(ctx, d, flush_tokens);
                    proof {
                        assert(table_matches(
                            old(self).state_view(),
                            gd,
                            self.state_view(),
                            res,
                        ));
                    }
                    res
                }
            },
            StreamEvent::TransportError(m) => {
                let flushed = self.state.finalize(State::Terminated);
                if let Some(response) = flushed {
                    ctx.push(self.request.clone(), response, flush_tokens);
                }
                StepResult::Failed(Error::StreamError(m))
            },
            StreamEvent::End => {
                let flushed = self.state.finalize(State::Terminated);
                if let Some(response) = flushed {
                    ctx.push(self.request.clone(), response, flush_tokens);
                }
                StepResult::Finished
            },
        }
    }
}

} // verus!
