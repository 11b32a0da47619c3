//! The decisions of the chat API (`/v1/chat/completions`, `/v1/models`,
//! `/v1/usage`).
//!
//! A completion runs: resolve the logical model, keep the mappings whose
//! provider is active, estimate the prompt and hold that many credits, try
//! the routed providers in order (a quota failure disables the provider and
//! falls back to the next, any other failure gives up; both release the
//! hold), settle the hold against the metered usage, account the provider's
//! quota and alert once it crosses its threshold. The lookups, the calls
//! and the writes are the caller's; every decision between them is here.

use vstd::prelude::*;
use vstd::utf8::{encode_utf8, decode_utf8, is_char_boundary};
use crate::api::error::{ApiError, bad_request};
use crate::billing::estimator::{estimate_prompt_tokens, estimate_spec};
use crate::billing::rates::{compute_credits, credits_spec, div_toward_zero, div_toward_zero_i64, is_quotient_toward_zero,
    lemma_div_toward_zero_monotone, lemma_div_toward_zero_quotient, UsageTokens};
use crate::domain::credit::Credits;
use crate::domain::model::LogicalModel;
use crate::domain::provider::ProviderStatus;
use crate::text::{append_str, decimal, decimal_signed, join_strings, join_with, push_decimal_i64, push_decimal_u64, str_eq, string_views};

verus! {

/// One message of a chat request.
#[derive(Debug, Clone)]
pub struct ChatMessage {
    pub role: String,
    pub content: String,
}

/// Streaming is not offered: a streaming request is refused.
pub fn reject_streaming(stream: bool) -> (r: Result<(), ApiError>)
    ensures
        stream ==> (r matches Err(ApiError::BadRequest(m)) && m@ == "streaming not yet implemented"@),
        !stream ==> r is Ok,
{
    if stream {
        Err(bad_request("streaming not yet implemented"))
    } else {
        Ok(())
    }
}

/// The logical model a request names, as looked up by name: an unknown name
/// is a bad request that quotes it.
pub fn resolve_model(requested: &str, found: Option<LogicalModel>) -> (r: Result<LogicalModel, ApiError>)
    ensures
        match found {
            Some(m) => r == Ok::<LogicalModel, ApiError>(m),
            None => r matches Err(ApiError::BadRequest(msg)) && msg@ == "unknown model: "@ + requested@,
        },
{
    match found {
        Some(m) => Ok(m),
        None => {
            let mut msg = String::new();
            append_str(&mut msg, "unknown model: ");
            append_str(&mut msg, requested);
            assert(msg@ =~= "unknown model: "@ + requested@);
            Err(ApiError::BadRequest(msg))
        },
    }
}

/// The positions of the mappings that can serve: those whose provider was
/// found and is active (`statuses[i]` is the status of mapping `i`'s
/// provider, `None` when it was not found), in mapping order. No such
/// mapping means no provider.
pub fn active_candidates(statuses: &Vec<Option<ProviderStatus>>) -> (r: Result<Vec<usize>, ApiError>)
    ensures
        (exists|i: int| 0 <= i < statuses@.len() && statuses@[i] == Some(ProviderStatus::Active))
            ==> r is Ok,
        !(exists|i: int| 0 <= i < statuses@.len() && statuses@[i] == Some(ProviderStatus::Active))
            ==> r == Err::<Vec<usize>, ApiError>(ApiError::NoProvider),
        r matches Ok(ix) ==> {
            &&& forall|k: int| 0 <= k < ix@.len() ==> ix@[k] < statuses@.len()
                && statuses@[ix@[k] as int] == Some(ProviderStatus::Active)
            &&& forall|k: int, l: int| 0 <= k < l < ix@.len() ==> ix@[k] < ix@[l]
            &&& forall|i: int| 0 <= i < statuses@.len() && statuses@[i] == Some(ProviderStatus::Active)
                ==> ix@.contains(i as usize)
        },
{
    let mut ix: Vec<usize> = Vec::new();
    let mut i: usize = 0;
    while i < statuses.len()
        invariant
            i <= statuses@.len(),
            forall|k: int| 0 <= k < ix@.len() ==> ix@[k] < i
                && statuses@[ix@[k] as int] == Some(ProviderStatus::Active),
            forall|k: int, l: int| 0 <= k < l < ix@.len() ==> ix@[k] < ix@[l],
            forall|j: int| 0 <= j < i && statuses@[j] == Some(ProviderStatus::Active)
                ==> ix@.contains(j as usize),
        decreases statuses@.len() - i,
    {
        let active = match statuses[i] {
            Some(ProviderStatus::Active) => true,
            _ => false,
        };
        if active {
            let ghost old_ix = ix@;
            ix.push(i);
            proof {
                assert(ix@[ix@.len() - 1] == i);
                assert forall|j: int| 0 <= j < i + 1 && statuses@[j] == Some(ProviderStatus::Active)
                    implies ix@.contains(j as usize) by {
                    if j == i {
                        assert(ix@[ix@.len() - 1] == j as usize);
                    } else {
                        assert(old_ix.contains(j as usize));
                        let k = choose|k: int| 0 <= k < old_ix.len() && old_ix[k] == j as usize;
                        assert(ix@[k] == j as usize);
                    }
                }
            }
        }
        i = i + 1;
    }
    if ix.len() == 0 {
        proof {
            assert forall|j: int| 0 <= j < statuses@.len() implies statuses@[j] != Some(ProviderStatus::Active) by {
                if statuses@[j] == Some(ProviderStatus::Active) {
                    assert(ix@.contains(j as usize));
                }
            }
        }
        Err(ApiError::NoProvider)
    } else {
        proof {
            assert(statuses@[ix@[0] as int] == Some(ProviderStatus::Active));
        }
        Ok(ix)
    }
}

/// The prompt line of a message: `role: content`.
pub open spec fn message_line(m: ChatMessage) -> Seq<char> {
    m.role@ + ": "@ + m.content@
}

/// The prompt lines of the messages, in order.
pub open spec fn message_lines(ms: Seq<ChatMessage>) -> Seq<Seq<char>> {
    ms.map_values(|m: ChatMessage| message_line(m))
}

/// The text the prompt is estimated from: one `role: content` line per
/// message, joined by newlines.
pub open spec fn prompt_text_spec(ms: Seq<ChatMessage>) -> Seq<char> {
    join_with(message_lines(ms), "\n"@)
}

/// Renders the prompt text of the messages.
pub fn prompt_text(messages: &Vec<ChatMessage>) -> (r: String)
    ensures
        r@ == prompt_text_spec(messages@),
{
    let mut lines: Vec<String> = Vec::new();
    let mut i: usize = 0;
    while i < messages.len()
        invariant
            i <= messages@.len(),
            string_views(lines@) == message_lines(messages@.take(i as int)),
        decreases messages@.len() - i,
    {
        let mut line = String::new();
        append_str(&mut line, messages[i].role.as_str());
        append_str(&mut line, ": ");
        append_str(&mut line, messages[i].content.as_str());
        let ghost before = lines@;
        assert(line@ == message_line(messages@[i as int]));
        lines.push(line);
        assert(messages@.take(i as int + 1) =~= messages@.take(i as int).push(messages@[i as int]));
        assert(message_lines(messages@.take(i as int + 1)) =~= message_lines(messages@.take(i as int)).push(line@));
        assert(string_views(lines@) =~= string_views(before).push(line@));
        i = i + 1;
    }
    assert(messages@.take(messages@.len() as int) =~= messages@);
    join_strings(&lines, "\n")
}

/// The credits held before a call: the prompt estimate charged at the
/// model's input rate (the completion is not estimated), and at least 1.
pub open spec fn hold_credits_spec(est_prompt_tokens: i64, model: LogicalModel) -> int {
    let c = credits_spec(est_prompt_tokens as int, 0, model.input_rate_per_1k as int, model.output_rate_per_1k as int);
    if c < 1 { 1 } else { c }
}

/// The hold for an estimated prompt size.
pub fn hold_credits(est_prompt_tokens: i64, model: &LogicalModel) -> (r: i64)
    ensures
        r == hold_credits_spec(est_prompt_tokens, *model),
        r >= 1,
{
    let est = compute_credits(
        &UsageTokens { prompt_tokens: est_prompt_tokens, completion_tokens: 0 },
        model.input_rate_per_1k,
        model.output_rate_per_1k,
    );
    if est < 1 { 1 } else { est }
}

/// The hold for a prompt text: its tokenizer estimate, held at the model's
/// input rate.
pub fn estimate_hold(prompt: &str, model: &LogicalModel) -> (r: i64)
    ensures
        r == hold_credits_spec(estimate_spec(prompt@), *model),
{
    let est = estimate_prompt_tokens(prompt);
    hold_credits(est, model)
}

/// A routed candidate: which provider to call and under which upstream
/// model name.
#[derive(Debug)]
pub struct RouteChoice {
    pub provider_id: String,
    pub upstream_model: String,
}

impl RouteChoice {
    /// The provider id and the upstream model, as text.
    pub open spec fn key(&self) -> (Seq<char>, Seq<char>) {
        (self.provider_id@, self.upstream_model@)
    }

    /// A copy with the same provider and model.
    pub fn duplicate(&self) -> (r: Self)
        ensures
            r.key() == self.key(),
    {
        RouteChoice { provider_id: self.provider_id.clone(), upstream_model: self.upstream_model.clone() }
    }
}

/// The keys of a sequence of choices.
pub open spec fn choice_keys(v: Seq<RouteChoice>) -> Seq<(Seq<char>, Seq<char>)> {
    v.map_values(|c: RouteChoice| c.key())
}

/// The routed choices whose provider is among the active candidates, in
/// routing order.
pub open spec fn plan_spec(ordered: Seq<RouteChoice>, active: Seq<Seq<char>>) -> Seq<(Seq<char>, Seq<char>)>
    decreases ordered.len(),
{
    if ordered.len() == 0 {
        Seq::empty()
    } else {
        let rest = plan_spec(ordered.drop_last(), active);
        if active.contains(ordered.last().provider_id@) {
            rest.push(ordered.last().key())
        } else {
            rest
        }
    }
}

fn contains_str(v: &Vec<String>, s: &str) -> (r: bool)
    ensures
        r == string_views(v@).contains(s@),
{
    let mut i: usize = 0;
    while i < v.len()
        invariant
            i <= v@.len(),
            forall|j: int| 0 <= j < i ==> v@[j]@ != s@,
        decreases v@.len() - i,
    {
        if str_eq(v[i].as_str(), s) {
            assert(string_views(v@)[i as int] == s@);
            return true;
        }
        i = i + 1;
    }
    proof {
        if string_views(v@).contains(s@) {
            let j = choose|j: int| 0 <= j < v@.len() && string_views(v@)[j] == s@;
            assert(v@[j]@ == s@);
        }
    }
    false
}

/// The attempt plan: the routed order, keeping the choices whose provider
/// is an active candidate (the others are skipped).
pub fn attempt_plan(ordered: &Vec<RouteChoice>, active_provider_ids: &Vec<String>) -> (r: Vec<RouteChoice>)
    ensures
        choice_keys(r@) == plan_spec(ordered@, string_views(active_provider_ids@)),
{
    let mut plan: Vec<RouteChoice> = Vec::new();
    let mut i: usize = 0;
    while i < ordered.len()
        invariant
            i <= ordered@.len(),
            choice_keys(plan@) == plan_spec(ordered@.take(i as int), string_views(active_provider_ids@)),
        decreases ordered@.len() - i,
    {
        proof {
            assert(ordered@.take(i as int + 1).drop_last() =~= ordered@.take(i as int));
        }
        if contains_str(active_provider_ids, ordered[i].provider_id.as_str()) {
            plan.push(ordered[i].duplicate());
            assert(choice_keys(plan@) =~= plan_spec(ordered@.take(i as int + 1), string_views(active_provider_ids@)));
        }
        i = i + 1;
    }
    assert(ordered@.take(ordered@.len() as int) =~= ordered@);
    plan
}

/// A failed upstream call.
#[derive(Debug, Clone)]
pub enum UpstreamError {
    /// The upstream answered with a non-success status.
    Status { status: u16, body: String },
    /// The call timed out.
    Timeout,
    /// The connection failed.
    Connect(String),
    /// Any other failure.
    Other(String),
}

/// The UTF-8 length of a text.
pub open spec fn utf8_len(s: Seq<char>) -> int {
    encode_utf8(s).len() as int
}

/// The length of the quoted part of an upstream body: its first 200 bytes.
pub open spec fn excerpt_len(body: Seq<char>) -> int {
    if utf8_len(body) < 200 { utf8_len(body) } else { 200 }
}

/// The quoted part of an upstream body: the text of its first 200 bytes.
pub open spec fn body_excerpt(body: Seq<char>) -> Seq<char> {
    decode_utf8(encode_utf8(body).take(excerpt_len(body)))
}

/// Whether an upstream error can be quoted: a status body is cut after its
/// 200th byte, which must end a character.
pub open spec fn quotable(e: UpstreamError) -> bool {
    match e {
        UpstreamError::Status { body, .. } => utf8_len(body@) <= usize::MAX
            && is_char_boundary(encode_utf8(body@), excerpt_len(body@)),
        _ => true,
    }
}

/// The message of the answer to an upstream failure that gives up.
pub open spec fn upstream_message(e: UpstreamError) -> Seq<char> {
    match e {
        UpstreamError::Status { status, body } => "upstream "@ + decimal(status as nat) + ": "@ + body_excerpt(body@),
        UpstreamError::Timeout => "upstream timeout"@,
        UpstreamError::Connect(msg) => "connect: "@ + msg@,
        UpstreamError::Other(msg) => msg@,
    }
}

fn body_prefix(body: &str) -> (r: String)
    requires
        utf8_len(body@) <= usize::MAX,
        is_char_boundary(encode_utf8(body@), excerpt_len(body@)),
    ensures
        r@ == body_excerpt(body@),
{
    let n = body.len();
    let cut = if n < 200 { n } else { 200 };
    let (head, _) = body.split_at(cut);
    proof {
        vstd::utf8::encode_utf8_decode_utf8(head@);
        assert(encode_utf8(body@).subrange(0, cut as int) =~= encode_utf8(body@).take(excerpt_len(body@)));
    }
    String::from_str(head)
}

/// The answer to an upstream failure that gives up: an upstream error
/// quoting the status and the start of the body, the timeout, the
/// connection failure or the message.
pub fn map_upstream_error(e: UpstreamError) -> (r: ApiError)
    requires
        quotable(e),
    ensures
        r matches ApiError::Upstream(m) && m@ == upstream_message(e),
{
    match e {
        UpstreamError::Status { status, body } => {
            let mut m = String::new();
            append_str(&mut m, "upstream ");
            push_decimal_u64(&mut m, status as u64);
            append_str(&mut m, ": ");
            let excerpt = body_prefix(body.as_str());
            append_str(&mut m, excerpt.as_str());
            assert(m@ =~= "upstream "@ + decimal(status as nat) + ": "@ + body_excerpt(body@));
            ApiError::Upstream(m)
        },
        UpstreamError::Timeout => ApiError::Upstream(String::from_str("upstream timeout")),
        UpstreamError::Connect(msg) => {
            let mut m = String::new();
            append_str(&mut m, "connect: ");
            append_str(&mut m, msg.as_str());
            assert(m@ =~= "connect: "@ + msg@);
            ApiError::Upstream(m)
        },
        UpstreamError::Other(msg) => ApiError::Upstream(msg),
    }
}

/// How an upstream call ended, as classified by the router.
#[derive(Debug)]
pub enum AttemptOutcome {
    /// The upstream answered.
    Answered,
    /// A quota or availability failure: disable the provider and fall back.
    DisableAndFallback { reason: String },
    /// Any other failure: give up.
    Fatal(UpstreamError),
}

/// A provider to disable, with the reason.
#[derive(Debug)]
pub struct DisableOrder {
    pub provider_id: String,
    pub reason: String,
}

/// What to do next in a completion.
#[derive(Debug)]
pub enum AttemptStep {
    /// Call the upstream of this choice.
    Call(RouteChoice),
    /// The call answered: settle the hold with this choice's usage.
    Settle(RouteChoice),
    /// No answer: release the hold and answer this error.
    Fail(ApiError),
}

/// The step after an outcome, and the provider to disable before it.
#[derive(Debug)]
pub struct AttemptDirective {
    pub disable: Option<DisableOrder>,
    pub step: AttemptStep,
}

/// The error after a provider was disabled for `reason`.
pub open spec fn unavailable_message(reason: Seq<char>) -> Seq<char> {
    "provider unavailable: "@ + reason
}

/// The upstream attempts of one completion: the plan, the position of the
/// call in flight, and whether the attempts are over.
pub struct UpstreamAttempts {
    plan: Vec<RouteChoice>,
    pos: usize,
    done: bool,
}

impl UpstreamAttempts {
    /// The plan, as keys.
    pub closed spec fn plan(&self) -> Seq<(Seq<char>, Seq<char>)> {
        choice_keys(self.plan@)
    }

    /// The position of the current (or last) call in the plan.
    pub closed spec fn position(&self) -> nat {
        self.pos as nat
    }

    /// Whether a call is in flight and awaits its outcome.
    pub closed spec fn awaiting(&self) -> bool {
        !self.done && self.pos < self.plan@.len()
    }

    /// Whether the attempts are over (settled or failed).
    pub closed spec fn finished(&self) -> bool {
        self.done
    }

    /// Starts the attempts: call the first choice, or fail with no
    /// provider when the plan is empty.
    pub fn start(plan: Vec<RouteChoice>) -> (r: (Self, AttemptStep))
        ensures
            r.0.plan() == choice_keys(plan@),
            r.0.position() == 0,
            plan@.len() == 0 ==> r.0.finished() && r.1 == AttemptStep::Fail(ApiError::NoProvider),
            plan@.len() > 0 ==> r.0.awaiting() && (r.1 matches AttemptStep::Call(c) && c.key() == plan@[0].key()),
    {
        if plan.len() == 0 {
            (UpstreamAttempts { plan, pos: 0, done: true }, AttemptStep::Fail(ApiError::NoProvider))
        } else {
            let first = plan[0].duplicate();
            (UpstreamAttempts { plan, pos: 0, done: false }, AttemptStep::Call(first))
        }
    }

    /// The next step after the outcome of the call in flight. An answer
    /// settles with the current choice; a quota failure disables the
    /// current provider and calls the next choice, or fails with "provider
    /// unavailable" after the last one; any other failure fails at once
    /// with the mapped upstream error.
    pub fn on_outcome(&mut self, outcome: AttemptOutcome) -> (r: AttemptDirective)
        requires
            old(self).awaiting(),
            outcome matches AttemptOutcome::Fatal(e) ==> quotable(e),
        ensures
            final(self).plan() == old(self).plan(),
            match outcome {
                AttemptOutcome::Answered => {
                    &&& r.disable is None
                    &&& r.step matches AttemptStep::Settle(c) && c.key() == old(self).plan()[old(self).position() as int]
                    &&& final(self).finished()
                    &&& final(self).position() == old(self).position()
                },
                AttemptOutcome::DisableAndFallback { reason } => {
                    &&& r.disable matches Some(d) && d.provider_id@ == old(self).plan()[old(self).position() as int].0
                        && d.reason@ == reason@
                    &&& final(self).position() == old(self).position() + 1
                    &&& if final(self).position() < final(self).plan().len() {
                        &&& final(self).awaiting()
                        &&& r.step matches AttemptStep::Call(c) && c.key() == final(self).plan()[final(self).position() as int]
                    } else {
                        &&& final(self).finished()
                        &&& r.step matches AttemptStep::Fail(ApiError::Upstream(m)) && m@ == unavailable_message(reason@)
                    }
                },
                AttemptOutcome::Fatal(e) => {
                    &&& r.disable is None
                    &&& r.step matches AttemptStep::Fail(ApiError::Upstream(m)) && m@ == upstream_message(e)
                    &&& final(self).finished()
                    &&& final(self).position() == old(self).position()
                },
            },
    {
        let n = self.plan.len();
        match outcome {
            AttemptOutcome::Answered => {
                let c = self.plan[self.pos].duplicate();
                self.done = true;
                AttemptDirective { disable: None, step: AttemptStep::Settle(c) }
            },
            AttemptOutcome::DisableAndFallback { reason } => {
                let provider_id = self.plan[self.pos].provider_id.clone();
                let mut m = String::new();
                append_str(&mut m, "provider unavailable: ");
                append_str(&mut m, reason.as_str());
                assert(m@ =~= unavailable_message(reason@));
                let order = DisableOrder { provider_id, reason };
                self.pos = self.pos + 1;
                if self.pos < n {
                    let c = self.plan[self.pos].duplicate();
                    AttemptDirective { disable: Some(order), step: AttemptStep::Call(c) }
                } else {
                    self.done = true;
                    AttemptDirective { disable: Some(order), step: AttemptStep::Fail(ApiError::Upstream(m)) }
                }
            },
            AttemptOutcome::Fatal(e) => {
                self.done = true;
                AttemptDirective { disable: None, step: AttemptStep::Fail(map_upstream_error(e)) }
            },
        }
    }
}

/// The texts of the choices that carry a message, in order.
pub open spec fn present_texts(contents: Seq<Option<String>>) -> Seq<Seq<char>>
    decreases contents.len(),
{
    if contents.len() == 0 {
        Seq::empty()
    } else {
        let rest = present_texts(contents.drop_last());
        match contents.last() {
            Some(t) => rest.push(t@),
            None => rest,
        }
    }
}

/// The completion text: the contents of the choices that carry a message,
/// joined by newlines.
pub fn completion_text(contents: &Vec<Option<String>>) -> (r: String)
    ensures
        r@ == join_with(present_texts(contents@), "\n"@),
{
    let mut parts: Vec<String> = Vec::new();
    let mut i: usize = 0;
    while i < contents.len()
        invariant
            i <= contents@.len(),
            string_views(parts@) == present_texts(contents@.take(i as int)),
        decreases contents@.len() - i,
    {
        proof {
            assert(contents@.take(i as int + 1).drop_last() =~= contents@.take(i as int));
        }
        match &contents[i] {
            Some(t) => {
                parts.push(t.clone());
                assert(string_views(parts@) =~= present_texts(contents@.take(i as int + 1)));
            },
            None => {},
        }
        i = i + 1;
    }
    assert(contents@.take(contents@.len() as int) =~= contents@);
    join_strings(&parts, "\n")
}

/// The credits a settled call costs: the metered usage at the model's
/// rates, never below zero.
pub open spec fn settle_credits_spec(tokens: UsageTokens, model: LogicalModel) -> int {
    let c = credits_spec(tokens.prompt_tokens as int, tokens.completion_tokens as int,
        model.input_rate_per_1k as int, model.output_rate_per_1k as int);
    if c < 0 { 0 } else { c }
}

/// The credits to settle a hold with.
pub fn settle_credits(tokens: &UsageTokens, model: &LogicalModel) -> (r: i64)
    ensures
        r == settle_credits_spec(*tokens, *model),
        r >= 0,
{
    let c = compute_credits(tokens, model.input_rate_per_1k, model.output_rate_per_1k);
    if c < 0 { 0 } else { c }
}

/// The percentage of its quota a provider has used, when an alert is due:
/// no alert was sent yet, the limit is positive and `used * 100 / limit`
/// (toward zero) reaches the threshold.
pub open spec fn quota_alert_spec(used: i64, limit: Option<i64>, threshold: i32, alert_sent: bool) -> Option<int> {
    if alert_sent {
        None
    } else {
        match limit {
            Some(lim) => if lim > 0 && div_toward_zero(used * 100, lim as int) >= threshold {
                Some(div_toward_zero(used * 100, lim as int))
            } else {
                None
            },
            None => None,
        }
    }
}

/// Whether the quota accounting of a call crossed the alert threshold; the
/// percentage when it did.
pub fn quota_alert(used: i64, limit: Option<i64>, threshold: i32, alert_sent: bool) -> (r: Option<i64>)
    requires
        (!alert_sent && (limit matches Some(l) && l > 0)) ==> i64::MIN <= used * 100 <= i64::MAX,
    ensures
        match quota_alert_spec(used, limit, threshold, alert_sent) {
            Some(p) => r == Some(p as i64),
            None => r is None,
        },
{
    if alert_sent {
        return None;
    }
    match limit {
        Some(lim) => {
            if lim > 0 {
                let pct = div_toward_zero_i64(used * 100, lim);
                if pct >= threshold as i64 {
                    Some(pct)
                } else {
                    None
                }
            } else {
                None
            }
        },
        None => None,
    }
}

/// The title of a quota alert.
pub fn quota_alert_title() -> (r: &'static str)
    ensures
        r@ == "供应商额度告警"@,
{
    "供应商额度告警"
}

/// The text of a quota alert: the provider's name (its id when it has none
/// on record), its id, the percentage and the counts.
pub open spec fn quota_alert_text(name: Seq<char>, pid: Seq<char>, pct: int, used: int, limit: int) -> Seq<char> {
    "供应商 "@ + name + "("@ + pid + ") 额度已达 "@ + decimal_signed(pct) + "%（"@
        + decimal_signed(used) + "/"@ + decimal_signed(limit) + "），请及时处理。"@
}

/// Renders the text of a quota alert.
pub fn quota_alert_message(provider_name: Option<&str>, pid: &str, pct: i64, used: i64, limit: i64) -> (r: String)
    ensures
        r@ == quota_alert_text(
            match provider_name { Some(n) => n@, None => pid@ },
            pid@, pct as int, used as int, limit as int,
        ),
{
    let name = match provider_name {
        Some(n) => n,
        None => pid,
    };
    let mut m = String::new();
    append_str(&mut m, "供应商 ");
    append_str(&mut m, name);
    append_str(&mut m, "(");
    append_str(&mut m, pid);
    append_str(&mut m, ") 额度已达 ");
    push_decimal_i64(&mut m, pct);
    append_str(&mut m, "%（");
    push_decimal_i64(&mut m, used);
    append_str(&mut m, "/");
    push_decimal_i64(&mut m, limit);
    append_str(&mut m, "），请及时处理。");
    assert(m@ =~= quota_alert_text(name@, pid@, pct as int, used as int, limit as int));
    m
}

/// The names of the active logical models, in order.
pub open spec fn active_model_names(ms: Seq<LogicalModel>) -> Seq<Seq<char>>
    decreases ms.len(),
{
    if ms.len() == 0 {
        Seq::empty()
    } else {
        let rest = active_model_names(ms.drop_last());
        if ms.last().status@ == "active"@ {
            rest.push(ms.last().logical_name@)
        } else {
            rest
        }
    }
}

/// The models listed by `/v1/models`: the names of the active ones.
pub fn list_model_names(models: &Vec<LogicalModel>) -> (r: Vec<String>)
    ensures
        string_views(r@) == active_model_names(models@),
{
    let mut names: Vec<String> = Vec::new();
    let mut i: usize = 0;
    while i < models.len()
        invariant
            i <= models@.len(),
            string_views(names@) == active_model_names(models@.take(i as int)),
        decreases models@.len() - i,
    {
        proof {
            assert(models@.take(i as int + 1).drop_last() =~= models@.take(i as int));
        }
        if str_eq(models[i].status.as_str(), "active") {
            names.push(models[i].logical_name.clone());
            assert(string_views(names@) =~= active_model_names(models@.take(i as int + 1)));
        }
        i = i + 1;
    }
    assert(models@.take(models@.len() as int) =~= models@);
    names
}

/// The usage summary of an account for `/v1/usage`.
#[derive(Debug, Clone)]
pub struct UsageSummary {
    pub total_credits: i64,
    pub used_credits: i64,
    pub remaining_credits: i64,
    pub calls_this_month: i64,
}

/// The summary from the account's balance (if it has a ledger) and the
/// month's aggregates: both the total and the remaining credits are the
/// balance (0 without a ledger).
pub fn usage_summary(credits: Option<Credits>, used_credits: i64, calls: i64) -> (r: UsageSummary)
    ensures
        r.total_credits == (match credits { Some(c) => c.balance, None => 0 }),
        r.remaining_credits == (match credits { Some(c) => c.balance, None => 0 }),
        r.used_credits == used_credits,
        r.calls_this_month == calls,
{
    let balance = match credits {
        Some(c) => c.balance,
        None => 0,
    };
    UsageSummary { total_credits: balance, used_credits, remaining_credits: balance, calls_this_month: calls }
}

/// The hold is the prompt estimate charged at the input rate, at least 1:
/// where `est * rate` fits in `i64` and `c` is `est * rate / 1000`
/// rounded toward zero, the hold is `c`, or 1 when `c` is below 1. The
/// output rate plays no part.
pub proof fn lemma_hold_is_input_charge(est: i64, model: LogicalModel, c: int)
    requires
        i64::MIN <= est * model.input_rate_per_1k <= i64::MAX,
        is_quotient_toward_zero(est * model.input_rate_per_1k, 1000, c),
    ensures
        hold_credits_spec(est, model) == (if c < 1 { 1 } else { c }),
{
    lemma_div_toward_zero_quotient(est * model.input_rate_per_1k, 1000, c);
    assert(div_toward_zero(0, 1000) == 0);
}

/// A larger estimate never lowers the hold.
pub proof fn lemma_hold_monotone(est1: i64, est2: i64, model: LogicalModel)
    requires
        0 <= est1 <= est2,
        model.input_rate_per_1k >= 0,
    ensures
        hold_credits_spec(est1, model) <= hold_credits_spec(est2, model),
{
    let r = model.input_rate_per_1k as int;
    assert(est1 * r <= est2 * r) by (nonlinear_arith)
        requires 0 <= est1 <= est2, r >= 0;
    assert(0 <= est1 * r) by (nonlinear_arith)
        requires 0 <= est1, r >= 0;
    let a = crate::billing::rates::saturating_mul_spec(est1 as int, r);
    let b = crate::billing::rates::saturating_mul_spec(est2 as int, r);
    assert(a <= b);
    lemma_div_toward_zero_monotone(a, b, 1000);
    assert(div_toward_zero(0, 1000) == 0);
}

/// The alert fires at or above the threshold: when no alert was sent, the
/// limit is positive and `p` is `used * 100 / limit` rounded toward zero
/// with `p >= threshold`, the result is `Some(p)`.
pub proof fn lemma_quota_alert_fires(used: i64, lim: i64, threshold: i32, p: int)
    requires
        lim > 0,
        is_quotient_toward_zero(used * 100, lim as int, p),
        p >= threshold,
    ensures
        quota_alert_spec(used, Some(lim), threshold, false) == Some(p),
{
    lemma_div_toward_zero_quotient(used * 100, lim as int, p);
}

/// An alert, when there is one, is the used percentage `p`
/// (`used * 100 / limit` toward zero) and `p` reaches the threshold; none
/// is raised once one was sent, nor without a positive limit.
pub proof fn lemma_quota_alert_sound(used: i64, limit: Option<i64>, threshold: i32)
    ensures
        quota_alert_spec(used, limit, threshold, true) is None,
        (limit is None || (limit matches Some(l) && l <= 0)) ==> quota_alert_spec(used, limit, threshold, false) is None,
        quota_alert_spec(used, limit, threshold, false) matches Some(p) ==>
            (p >= threshold && (limit matches Some(l) && l > 0 && is_quotient_toward_zero(used * 100, l as int, p))),
{
    if let Some(l) = limit {
        if l > 0 {
            lemma_div_toward_zero_quotient(used * 100, l as int, 0);
        }
    }
}

/// Once due, the alert stays due as usage grows, with a percentage at
/// least as high.
pub proof fn lemma_quota_alert_monotone(used1: i64, used2: i64, lim: i64, threshold: i32)
    requires
        used1 <= used2,
        lim > 0,
        quota_alert_spec(used1, Some(lim), threshold, false) is Some,
    ensures
        quota_alert_spec(used2, Some(lim), threshold, false) matches Some(p2)
            && p2 >= quota_alert_spec(used1, Some(lim), threshold, false)->0,
{
    lemma_div_toward_zero_monotone(used1 * 100, used2 * 100, lim as int);
}

} // verus!
