//! Chatbot conversation context: the system message and an ordered log of
//! request/response turns with token costs, trimmed to a configurable token
//! window after every push.

use crate::message::{lemma_messages_view_push, messages_view, opt_str_view, AssistantMessage, Content, ContentV, Message, MessageV, SystemMessage, UserMessage};
use vstd::prelude::*;

verus! {

/// Mathematical view of one conversation turn: a request, the assistant's
/// response, and the token cost the caller assigned to the turn.
pub ghost struct TurnV {
    pub request: ContentV,
    pub response: Seq<char>,
    pub tokens: nat,
}

/// Mathematical view of the conversation context.
pub ghost struct ContextV {
    pub system_message: Option<Seq<char>>,
    pub system_message_tokens: nat,
    pub conversation: Seq<TurnV>,
    pub min_history_tokens: Option<nat>,
    pub max_history_tokens: Option<nat>,
}

/// View of one stored turn.
pub open spec fn turn_view(t: (Content, String, usize)) -> TurnV {
    TurnV { request: t.0@, response: t.1@, tokens: t.2 as nat }
}

/// View of the stored conversation, turn by turn.
pub open spec fn conversation_view(s: Seq<(Content, String, usize)>) -> Seq<TurnV> {
    s.map_values(|t: (Content, String, usize)| turn_view(t))
}

/// Mathematical view of an optional token threshold.
pub open spec fn opt_nat_view(o: Option<usize>) -> Option<nat> {
    match o {
        Some(n) => Some(n as nat),
        None => None,
    }
}

/// Chatbot context.
pub struct Context {
    system_message: Option<String>,
    system_message_tokens: usize,
    conversation: Vec<(Content, String, usize)>,
    min_history_tokens: Option<usize>,
    max_history_tokens: Option<usize>,
}

impl View for Context {
    type V = ContextV;

    closed spec fn view(&self) -> ContextV {
        ContextV {
            system_message: opt_str_view(self.system_message),
            system_message_tokens: self.system_message_tokens as nat,
            conversation: conversation_view(self.conversation@),
            min_history_tokens: opt_nat_view(self.min_history_tokens),
            max_history_tokens: opt_nat_view(self.max_history_tokens),
        }
    }
}

/// The running total is still below the configured minimum; with no minimum
/// configured the scan is never stopped by this bound.
pub open spec fn below_min(acc: nat, min: Option<nat>) -> bool {
    match min {
        Some(m) => acc < m,
        None => true,
    }
}

/// The running total stays within the configured maximum; with no maximum
/// configured every total is acceptable.
pub open spec fn within_max(total: nat, max: Option<nat>) -> bool {
    match max {
        Some(x) => total <= x,
        None => true,
    }
}

/// How many of `turns` (ordered oldest first) stay in the window, scanning
/// from the newest turn backward, when the turns already retained cost `acc`
/// tokens in total. An older turn stays exactly when the total before it was
/// still below the minimum and the total after it does not cross the maximum.
pub open spec fn keep_older(turns: Seq<TurnV>, acc: nat, min: Option<nat>, max: Option<nat>) -> nat
    decreases turns.len(),
{
    if turns.len() == 0 {
        0
    } else if below_min(acc, min) && within_max(acc + turns.last().tokens, max) {
        1 + keep_older(turns.drop_last(), acc + turns.last().tokens, min, max)
    } else {
        0
    }
}

/// How many trailing turns the window rule retains: the newest turn always
/// stays, and older turns stay as long as `keep_older` allows.
pub open spec fn keep_count(turns: Seq<TurnV>, sys: nat, min: Option<nat>, max: Option<nat>) -> nat {
    if turns.len() == 0 {
        0
    } else {
        1 + keep_older(turns.drop_last(), sys + turns.last().tokens, min, max)
    }
}

/// The retained suffix of the conversation under the window rule.
pub open spec fn window(turns: Seq<TurnV>, sys: nat, min: Option<nat>, max: Option<nat>) -> Seq<
    TurnV,
> {
    turns.skip(turns.len() - keep_count(turns, sys, min, max))
}

/// The context after a push: the new turn is appended and the window rule is
/// re-applied; nothing else changes.
pub open spec fn pushed(c: ContextV, request: ContentV, response: Seq<char>, tokens: nat) -> ContextV {
    let appended = c.conversation.push(TurnV { request, response, tokens });
    ContextV {
        conversation: window(
            appended,
            c.system_message_tokens,
            c.min_history_tokens,
            c.max_history_tokens,
        ),
        ..c
    }
}

/// Token cost of the last `k` turns of `s`.
pub open spec fn suffix_sum(s: Seq<TurnV>, k: nat) -> nat
    recommends
        k <= s.len(),
    decreases k,
{
    if k == 0 {
        0
    } else {
        s.last().tokens + suffix_sum(s.drop_last(), (k - 1) as nat)
    }
}

/// Token cost of all turns of `s`.
pub open spec fn sum_tokens(s: Seq<TurnV>) -> nat
    decreases s.len(),
{
    if s.len() == 0 {
        0
    } else {
        s.last().tokens + sum_tokens(s.drop_last())
    }
}

/// Size of a context in tokens: the system message plus every stored turn.
pub open spec fn total_tokens(c: ContextV) -> nat {
    c.system_message_tokens + sum_tokens(c.conversation)
}

/// `keep_older` never counts more turns than there are.
proof fn lemma_keep_older_le_len(turns: Seq<TurnV>, acc: nat, min: Option<nat>, max: Option<nat>)
    ensures
        keep_older(turns, acc, min, max) <= turns.len(),
    decreases turns.len(),
{
    if turns.len() > 0 && below_min(acc, min) && within_max(acc + turns.last().tokens, max) {
        lemma_keep_older_le_len(turns.drop_last(), acc + turns.last().tokens, min, max);
    }
}

/// `keep_count` never counts more turns than there are.
pub proof fn lemma_keep_count_le_len(turns: Seq<TurnV>, sys: nat, min: Option<nat>, max: Option<nat>)
    ensures
        keep_count(turns, sys, min, max) <= turns.len(),
{
    if turns.len() > 0 {
        lemma_keep_older_le_len(turns.drop_last(), sys + turns.last().tokens, min, max);
    }
}

/// With no thresholds configured, the scan retains every older turn.
proof fn lemma_keep_older_no_limits(turns: Seq<TurnV>, acc: nat)
    ensures
        keep_older(turns, acc, None, None) == turns.len(),
    decreases turns.len(),
{
    if turns.len() > 0 {
        lemma_keep_older_no_limits(turns.drop_last(), acc + turns.last().tokens);
    }
}

/// With no thresholds configured, the window retains the whole conversation.
pub proof fn lemma_window_no_limits(turns: Seq<TurnV>, sys: nat)
    ensures
        window(turns, sys, None, None) == turns,
{
    if turns.len() > 0 {
        lemma_keep_older_no_limits(turns.drop_last(), sys + turns.last().tokens);
    }
    assert(window(turns, sys, None, None) =~= turns);
}

impl Context {
    /// Create a new chat context.
    pub fn new(
        system_message: Option<String>,
        system_message_tokens: usize,
        min_history_tokens: Option<usize>,
        max_history_tokens: Option<usize>,
    ) -> (r: Self)
        ensures
            r@.system_message == opt_str_view(system_message),
            r@.system_message_tokens == system_message_tokens as nat,
            r@.conversation == Seq::<TurnV>::empty(),
            r@.min_history_tokens == opt_nat_view(min_history_tokens),
            r@.max_history_tokens == opt_nat_view(max_history_tokens),
    {
        let r = Context {
            system_message,
            system_message_tokens,
            conversation: Vec::new(),
            min_history_tokens,
            max_history_tokens,
        };
        proof {
            assert(conversation_view(r.conversation@) =~= Seq::<TurnV>::empty());
        }
        r
    }

    /// Size of the context in tokens.
    pub fn tokens(&self) -> (r: usize)
        requires
            total_tokens(self@) <= usize::MAX,
        ensures
            r as nat == total_tokens(self@),
    {
        let ghost s = conversation_view(self.conversation@);
        let mut sum: usize = self.system_message_tokens;
        let mut i: usize = 0;
        proof {
            assert(s.take(0) =~= Seq::<TurnV>::empty());
        }
        while i < self.conversation.len()
            invariant
                i <= self.conversation.len(),
                s == conversation_view(self.conversation@),
                total_tokens(self@) <= usize::MAX,
                sum as nat == self@.system_message_tokens + sum_tokens(s.take(i as int)),
            decreases self.conversation.len() - i,
        {
            proof {
                lemma_sum_take_le(s, i + 1);
                assert(s.take(i + 1 as int).drop_last() =~= s.take(i as int));
                assert(s.take(i + 1 as int).last() == s[i as int]);
            }
            sum = sum + self.conversation[i].2;
            i = i + 1;
        }
        proof {
            assert(s.take(s.len() as int) =~= s);
        }
        sum
    }
}

impl Context {
    /// Number of turns currently retained in the context.
    pub fn conversation_len(&self) -> (r: usize)
        ensures
            r == self@.conversation.len(),
    {
        self.conversation.len()
    }

    /// Extend the context with a new pair of request and response, then
    /// re-apply the window rule; a prefix of the oldest turns is discarded
    /// as needed. Nothing else about the context changes.
    pub fn push(&mut self, request: Content, response: String, tokens: usize)
        ensures
            final(self)@ == pushed(old(self)@, request@, response@, tokens as nat),
    {
        let ghost pre = self@;
        let ghost tv = TurnV { request: request@, response: response@, tokens: tokens as nat };
        self.conversation.push((request, response, tokens));
        proof {
            assert(conversation_view(self.conversation@) =~= pre.conversation.push(tv));
        }
        self.keep_recent();
    }

    /// Discard old turns so that the retained suffix is exactly the window.
    fn keep_recent(&mut self)
        ensures
            final(self)@ == (ContextV {
                conversation: window(
                    old(self)@.conversation,
                    old(self)@.system_message_tokens,
                    old(self)@.min_history_tokens,
                    old(self)@.max_history_tokens,
                ),
                ..old(self)@
            }),
    {
        let ghost s = conversation_view(self.conversation@);
        let ghost sys = self@.system_message_tokens;
        let ghost min = self@.min_history_tokens;
        let ghost max = self@.max_history_tokens;

        if self.min_history_tokens.is_none() && self.max_history_tokens.is_none() {
            proof {
                lemma_window_no_limits(s, sys);
            }
            return ;
        }

        let n = self.conversation.len();
        if n == 0 {
            proof {
                assert(window(s, sys, min, max) =~= s);
            }
            return ;
        }

        let mut keep: usize = 1;
        let mut acc: u128 = self.system_message_tokens as u128 + self.conversation[n - 1].2
            as u128;
        proof {
            assert(s.last() == s[n - 1]);
            assert(suffix_sum(s, 1) == s.last().tokens + suffix_sum(s.drop_last(), 0));
            assert(s.drop_last() =~= s.take(n - 1));
        }
        loop
            invariant
                1 <= keep <= n,
                n == self.conversation.len(),
                *self == *old(self),
                s == conversation_view(self.conversation@),
                sys == self@.system_message_tokens,
                min == opt_nat_view(self.min_history_tokens),
                max == opt_nat_view(self.max_history_tokens),
                acc == sys + suffix_sum(s, keep as nat),
                acc < 0x20000000000000000u128,
                !(min is None && max is None),
                keep_count(s, sys, min, max) == keep as nat + keep_older(
                    s.take(n - keep),
                    acc as nat,
                    min,
                    max,
                ),
            ensures
                1 <= keep <= n,
                *self == *old(self),
                keep_count(s, sys, min, max) == keep as nat,
            decreases n - keep,
        {
            if keep >= n {
                proof {
                    assert(s.take(0) =~= Seq::<TurnV>::empty());
                }
                break ;
            }
            let cost = self.conversation[n - 1 - keep].2;
            let ghost candidates = s.take(n - keep);
            proof {
                assert(candidates.last() == s[n - 1 - keep]);
                assert(candidates.last().tokens == cost as nat);
            }
            let still_below = match self.min_history_tokens {
                Some(m) => acc < m as u128,
                None => true,
            };
            let fits = match self.max_history_tokens {
                Some(x) => acc + cost as u128 <= x as u128,
                None => true,
            };
            if still_below && fits {
                proof {
                    assert(candidates.drop_last() =~= s.take(n - keep - 1));
                    lemma_suffix_sum_step(s, keep as nat);
                }
                acc = acc + cost as u128;
                keep = keep + 1;
            } else {
                proof {
                    assert(keep_older(candidates, acc as nat, min, max) == 0);
                }
                break ;
            }
        }

        let discard = n - keep;
        let tail = self.conversation.split_off(discard);
        self.conversation = tail;
        proof {
            assert(conversation_view(self.conversation@) =~= s.skip(discard as int));
            assert(window(s, sys, min, max) == s.skip(discard as int));
        }
    }
}

/// The messages one stored turn contributes to a request body: the user
/// request followed by the assistant response.
pub open spec fn turn_messages(t: TurnV) -> Seq<MessageV> {
    seq![
        MessageV::User { content: t.request, name: None },
        MessageV::Assistant {
            content: Some(t.response),
            name: None,
            refusal: None,
            reasoning: None,
        },
    ]
}

/// The messages the stored conversation contributes, oldest turn first.
pub open spec fn conversation_messages(s: Seq<TurnV>) -> Seq<MessageV>
    decreases s.len(),
{
    if s.len() == 0 {
        Seq::<MessageV>::empty()
    } else {
        conversation_messages(s.drop_last()) + turn_messages(s.last())
    }
}

/// The optional system message heading a request body.
pub open spec fn system_messages(c: ContextV) -> Seq<MessageV> {
    match c.system_message {
        Some(sm) => seq![MessageV::System { content: sm, name: None }],
        None => Seq::<MessageV>::empty(),
    }
}

/// The full message sequence for a request: the optional system message,
/// then user/assistant pairs for every retained turn, then the new request.
pub open spec fn request_messages(c: ContextV, request: ContentV) -> Seq<MessageV> {
    system_messages(c) + conversation_messages(c.conversation) + seq![
        MessageV::User { content: request, name: None },
    ]
}

impl Context {
    /// Context so far with a new request message: the optional system
    /// message, then for every retained turn the user request and the
    /// assistant response, then the new request. Pure read; the context is
    /// not changed.
    pub fn with_request(&self, request: Content) -> (r: Vec<Message>)
        ensures
            messages_view(r@) == request_messages(self@, request@),
            r@.len() == 2 * self@.conversation.len() + (if self@.system_message is Some {
                1int
            } else {
                0int
            }) + 1,
    {
        let ghost s = conversation_view(self.conversation@);
        let mut r: Vec<Message> = Vec::new();
        match &self.system_message {
            Some(sm) => {
                r.push(Message::System(SystemMessage::new(sm.clone())));
                proof {
                    assert(messages_view(r@) =~= system_messages(self@));
                }
            },
            None => {
                proof {
                    assert(messages_view(r@) =~= system_messages(self@));
                }
            },
        }
        let mut i: usize = 0;
        proof {
            assert(s.take(0) =~= Seq::<TurnV>::empty());
            assert(messages_view(r@) =~= system_messages(self@) + conversation_messages(
                s.take(0),
            ));
        }
        while i < self.conversation.len()
            invariant
                i <= self.conversation.len(),
                s == conversation_view(self.conversation@),
                messages_view(r@) == system_messages(self@) + conversation_messages(
                    s.take(i as int),
                ),
                r@.len() == 2 * i + (if self@.system_message is Some {
                    1int
                } else {
                    0int
                }),
            decreases self.conversation.len() - i,
        {
            let turn = &self.conversation[i];
            let ghost before = r@;
            r.push(Message::User(UserMessage::new(turn.0.clone())));
            let ghost mid = r@;
            r.push(Message::Assistant(AssistantMessage::new(turn.1.clone())));
            proof {
                assert(mid =~= before.push(mid.last()));
                assert(r@ =~= mid.push(r@.last()));
                lemma_messages_view_push(before, mid.last());
                lemma_messages_view_push(mid, r@.last());
                assert(s.take(i + 1 as int).drop_last() =~= s.take(i as int));
                assert(s.take(i + 1 as int).last() == s[i as int]);
                assert(messages_view(r@) =~= system_messages(self@) + conversation_messages(
                    s.take(i + 1 as int),
                ));
            }
            i = i + 1;
        }
        proof {
            assert(s.take(s.len() as int) =~= s);
        }
        let ghost before_last = r@;
        r.push(Message::User(UserMessage::new(request)));
        proof {
            assert(r@ =~= before_last.push(r@.last()));
            lemma_messages_view_push(before_last, r@.last());
            assert(messages_view(r@) =~= request_messages(self@, request@));
        }
        r
    }
}

/// Law: with no thresholds configured, a push appends the new turn and
/// discards nothing, so the log grows by exactly one turn.
pub proof fn lemma_push_no_limits_appends(
    c: ContextV,
    request: ContentV,
    response: Seq<char>,
    tokens: nat,
)
    requires
        c.min_history_tokens is None,
        c.max_history_tokens is None,
    ensures
        pushed(c, request, response, tokens).conversation == c.conversation.push(
            TurnV { request, response, tokens },
        ),
        pushed(c, request, response, tokens).conversation.len() == c.conversation.len() + 1,
{
    lemma_window_no_limits(
        c.conversation.push(TurnV { request, response, tokens }),
        c.system_message_tokens,
    );
}

/// The cost of the retained suffix of length `k` is the suffix cost of the
/// whole conversation for the same `k`.
proof fn lemma_sum_skip(s: Seq<TurnV>, k: nat)
    requires
        k <= s.len(),
    ensures
        sum_tokens(s.skip(s.len() - k)) == suffix_sum(s, k),
    decreases k,
{
    if k == 0 {
        assert(s.skip(s.len() as int) =~= Seq::<TurnV>::empty());
    } else {
        let t = s.skip(s.len() - k);
        assert(t.last() == s.last());
        assert(t.drop_last() =~= s.drop_last().skip(s.drop_last().len() - (k - 1)));
        lemma_sum_skip(s.drop_last(), (k - 1) as nat);
    }
}

/// Suffix costs do not depend on turns older than the suffix.
proof fn lemma_suffix_sum_skip(s: Seq<TurnV>, k: nat, i: nat)
    requires
        i <= k <= s.len(),
    ensures
        suffix_sum(s.skip(s.len() - k), i) == suffix_sum(s, i),
    decreases i,
{
    if i > 0 {
        let t = s.skip(s.len() - k);
        assert(t.last() == s.last());
        assert(t.drop_last() =~= s.drop_last().skip(s.drop_last().len() - (k - 1)));
        lemma_suffix_sum_skip(s.drop_last(), (k - 1) as nat, (i - 1) as nat);
    }
}

/// Where the backward scan stops short of the whole log, the thresholds say
/// why: the total so far already reached the minimum, or taking the next
/// older turn would cross the maximum.
proof fn lemma_keep_older_stop(turns: Seq<TurnV>, acc: nat, min: Option<nat>, max: Option<nat>)
    requires
        keep_older(turns, acc, min, max) < turns.len(),
    ensures
        !(below_min(acc + suffix_sum(turns, keep_older(turns, acc, min, max)), min) && within_max(
            acc + suffix_sum(turns, keep_older(turns, acc, min, max) + 1),
            max,
        )),
    decreases turns.len(),
{
    let j = keep_older(turns, acc, min, max);
    if j == 0 {
        assert(suffix_sum(turns, 1) == turns.last().tokens + suffix_sum(turns.drop_last(), 0));
    } else {
        lemma_keep_older_stop(turns.drop_last(), acc + turns.last().tokens, min, max);
    }
}

/// Law: with only a minimum configured, after any push either the total
/// size of the context has reached the minimum, or every turn was retained.
pub proof fn lemma_push_min_only(
    c: ContextV,
    request: ContentV,
    response: Seq<char>,
    tokens: nat,
    m: nat,
)
    requires
        c.max_history_tokens is None,
        c.min_history_tokens == Some(m),
    ensures
        total_tokens(pushed(c, request, response, tokens)) >= m || pushed(
            c,
            request,
            response,
            tokens,
        ).conversation == c.conversation.push(TurnV { request, response, tokens }),
{
    let t = TurnV { request, response, tokens };
    let s = c.conversation.push(t);
    let sys = c.system_message_tokens;
    let min = c.min_history_tokens;
    let max = c.max_history_tokens;
    let k = keep_count(s, sys, min, max);
    lemma_keep_count_le_len(s, sys, min, max);
    if k == s.len() {
        assert(window(s, sys, min, max) =~= s);
    } else {
        lemma_keep_older_stop(s.drop_last(), sys + s.last().tokens, min, max);
        lemma_sum_skip(s, k);
        assert(suffix_sum(s, k) == s.last().tokens + suffix_sum(s.drop_last(), (k - 1) as nat));
        assert(sys + suffix_sum(s, k) >= m);
    }
}

/// Every turn the backward scan accepts keeps the running total within the
/// configured maximum.
proof fn lemma_keep_older_within(
    turns: Seq<TurnV>,
    acc: nat,
    min: Option<nat>,
    x: nat,
    j: nat,
)
    requires
        1 <= j <= keep_older(turns, acc, min, Some(x)),
    ensures
        acc + suffix_sum(turns, j) <= x,
    decreases j,
{
    lemma_keep_older_le_len(turns, acc, min, Some(x));
    if j == 1 {
        assert(suffix_sum(turns, 1) == turns.last().tokens + suffix_sum(turns.drop_last(), 0));
    } else {
        lemma_keep_older_within(
            turns.drop_last(),
            acc + turns.last().tokens,
            min,
            x,
            (j - 1) as nat,
        );
    }
}

/// Law: with a maximum configured, every retained window that reaches past
/// the newest turn stays within the maximum; only the newest turn alone may
/// exceed it. `i` counts retained turns from the newest backward.
pub proof fn lemma_push_max_bounded(
    c: ContextV,
    request: ContentV,
    response: Seq<char>,
    tokens: nat,
    x: nat,
    i: nat,
)
    requires
        c.max_history_tokens == Some(x),
        2 <= i <= pushed(c, request, response, tokens).conversation.len(),
    ensures
        c.system_message_tokens + suffix_sum(pushed(c, request, response, tokens).conversation, i)
            <= x,
{
    let t = TurnV { request, response, tokens };
    let s = c.conversation.push(t);
    let sys = c.system_message_tokens;
    let min = c.min_history_tokens;
    let max = c.max_history_tokens;
    let k = keep_count(s, sys, min, max);
    lemma_keep_count_le_len(s, sys, min, max);
    lemma_suffix_sum_skip(s, k, i);
    assert(suffix_sum(s, i) == s.last().tokens + suffix_sum(s.drop_last(), (i - 1) as nat));
    lemma_keep_older_within(s.drop_last(), sys + s.last().tokens, min, x, (i - 1) as nat);
}

/// Law: assembling a request over an empty context with system message `sm`
/// and new request `request` yields exactly the system message followed by
/// the new user message.
pub proof fn lemma_request_messages_empty_context(c: ContextV, sm: Seq<char>, request: ContentV)
    requires
        c.conversation.len() == 0,
        c.system_message == Some(sm),
    ensures
        request_messages(c, request) =~= seq![
            MessageV::System { content: sm, name: None },
            MessageV::User { content: request, name: None },
        ],
{
}

impl Default for Context {
    /// An empty context: no system message, no token costs, no thresholds.
    fn default() -> (r: Self)
        ensures
            r@.system_message is None,
            r@.system_message_tokens == 0,
            r@.conversation == Seq::<TurnV>::empty(),
            r@.min_history_tokens is None,
            r@.max_history_tokens is None,
    {
        Context::new(None, 0, None, None)
    }
}

/// Stepping the suffix cost: retaining one more turn adds that turn's cost.
proof fn lemma_suffix_sum_step(s: Seq<TurnV>, k: nat)
    requires
        k < s.len(),
    ensures
        suffix_sum(s, k + 1) == suffix_sum(s, k) + s[s.len() - 1 - k].tokens,
    decreases k,
{
    if k == 0 {
        assert(suffix_sum(s, 1) == s.last().tokens + suffix_sum(s.drop_last(), 0));
        assert(s.last() == s[s.len() - 1]);
    } else {
        lemma_suffix_sum_step(s.drop_last(), (k - 1) as nat);
        assert(s.drop_last()[s.len() - 1 - k] == s[s.len() - 1 - k]);
    }
}

/// The cost of a prefix of the conversation never exceeds the cost of the
/// whole conversation.
proof fn lemma_sum_take_le(s: Seq<TurnV>, j: int)
    requires
        0 <= j <= s.len(),
    ensures
        sum_tokens(s.take(j)) <= sum_tokens(s),
    decreases s.len(),
{
    if j == s.len() {
        assert(s.take(j) =~= s);
    } else {
        assert(s.take(j) =~= s.drop_last().take(j));
        lemma_sum_take_le(s.drop_last(), j);
    }
}

} // verus!
