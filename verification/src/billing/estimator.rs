//! Tokenizer estimates (cl100k_base, the GPT-3.5/4 encoding), used to size
//! pre-frozen holds and as the fallback when the upstream reports no usage.
//! Accurate for OpenAI models, an estimate for others.

use vstd::prelude::*;

verus! {

/// The number of tokens that tiktoken-rs's `cl100k_base` encoder produces
/// for a text (special tokens allowed), or `None` when the encoder cannot
/// be built. A function of the text alone.
pub uninterp spec fn cl100k_token_count(text: Seq<char>) -> Option<usize>;

/// The longest text (in characters) handed to the tokenizer.
///
/// cl100k's split pattern has a look-ahead, so fancy-regex runs it on its
/// backtracking machine, whose stack and backtrack count are each capped at
/// 1,000,000 per search, and tiktoken-rs unwraps the search result. Every
/// character starts a match of one of the seven alternatives, so each search
/// matches where it starts; each alternative pushes at most one state per
/// character its loops scan plus a few, and the alternatives scan at most
/// five times the remaining text between them. Up to this length a search
/// stays far below both caps.
pub const TOKENIZER_MAX_CHARS: usize = 100_000;

/// Whether a text is short enough to be handed to the tokenizer.
pub open spec fn tokenizable(text: Seq<char>) -> bool {
    text.len() <= TOKENIZER_MAX_CHARS
}

/// Builds tiktoken-rs's `cl100k_base()` encoder and counts the tokens of
/// `encode_with_special_tokens(text)`. Claimed: the result is the named
/// count of the text; a count is the length of a `Vec`, so it is at most
/// `isize::MAX`; and whether the encoder can be built does not depend on
/// the text (`cl100k_base()` takes no argument). Texts longer than
/// `TOKENIZER_MAX_CHARS` are not admitted: on a long run of letters or
/// white space the regex search can exhaust its fixed budget, and the
/// unwrapped error would abort.
#[verifier::external_body]
fn cl100k_count(text: &str) -> (r: Option<usize>)
    requires
        tokenizable(text@),
    ensures
        r == cl100k_token_count(text@),
        r matches Some(n) ==> n <= isize::MAX,
        (r is Some) == encoder_available(),
{
    match tiktoken_rs::cl100k_base() {
        Ok(bpe) => Some(bpe.encode_with_special_tokens(text).len()),
        Err(_) => None,
    }
}

/// The estimate for one text: the token count, or, when the encoder is
/// unavailable or the text is longer than `TOKENIZER_MAX_CHARS`, the number
/// of characters (an over-estimate is safer for a hold).
pub open spec fn estimate_spec(text: Seq<char>) -> i64 {
    if tokenizable(text) {
        match cl100k_token_count(text) {
            Some(n) => n as i64,
            None => text.len() as i64,
        }
    } else {
        text.len() as i64
    }
}

/// Estimates the token count of `text`.
pub fn estimate_prompt_tokens(text: &str) -> (r: i64)
    ensures
        r == estimate_spec(text@),
        tokenizable(text@) ==> (cl100k_token_count(text@) matches Some(n) ==> r == n),
{
    let len = text.unicode_len();
    if len <= TOKENIZER_MAX_CHARS {
        match cl100k_count(text) {
            Some(n) => n as i64,
            None => len as i64,
        }
    } else {
        len as i64
    }
}

/// The token count of one message when the encoder is available (its
/// characters when it is too long for the tokenizer).
pub open spec fn message_tokens(text: Seq<char>) -> int {
    if tokenizable(text) { cl100k_token_count(text)->0 as int } else { text.len() as int }
}

fn encoder_is_available() -> (r: bool)
    ensures
        r == encoder_available(),
{
    let empty = "";
    proof {
        reveal_strlit("");
    }
    assert(empty@ =~= Seq::<char>::empty());
    cl100k_count(empty).is_some()
}

fn count_message(m: &str) -> (r: usize)
    requires
        encoder_available(),
    ensures
        r == message_tokens(m@),
{
    let len = m.unicode_len();
    if len <= TOKENIZER_MAX_CHARS {
        match cl100k_count(m) {
            Some(n) => n,
            None => 0,
        }
    } else {
        len
    }
}

/// Estimated tokens of a conversation when the encoder is available:
/// each message's count plus 4 (role marker and separator), plus 2 for the
/// reply priming.
pub open spec fn messages_estimate_spec(messages: Seq<String>) -> int
    decreases messages.len(),
{
    if messages.len() == 0 {
        2
    } else {
        messages_estimate_spec(messages.drop_last())
            + message_tokens(messages.last()@) + 4
    }
}

/// Estimate of a conversation when the encoder is unavailable: all
/// characters plus 4 per message.
pub open spec fn messages_fallback_spec(messages: Seq<String>) -> int
    decreases messages.len(),
{
    if messages.len() == 0 {
        0
    } else {
        messages_fallback_spec(messages.drop_last()) + messages.last()@.len() + 4
    }
}

/// Whether the encoder is available (it is built from data compiled into
/// tiktoken-rs, so this does not depend on the text counted).
pub open spec fn encoder_available() -> bool {
    cl100k_token_count(Seq::empty()) is Some
}

/// Estimated prompt tokens of a conversation: with the encoder, the
/// counts plus the per-message and priming overheads; without it, the
/// character counts plus the per-message overhead.
pub open spec fn messages_tokens_spec(messages: Seq<String>) -> int {
    if encoder_available() {
        messages_estimate_spec(messages)
    } else {
        messages_fallback_spec(messages)
    }
}

proof fn lemma_messages_step(messages: Seq<String>, i: int)
    requires
        0 <= i < messages.len(),
    ensures
        messages_estimate_spec(messages.take(i + 1))
            == messages_estimate_spec(messages.take(i)) + message_tokens(messages[i]@) + 4,
        messages_fallback_spec(messages.take(i + 1))
            == messages_fallback_spec(messages.take(i)) + messages[i]@.len() + 4,
{
    assert(messages.take(i + 1).drop_last() =~= messages.take(i));
}

proof fn lemma_messages_monotone(messages: Seq<String>, i: int)
    requires
        0 <= i <= messages.len(),
    ensures
        0 <= messages_fallback_spec(messages.take(i)) <= messages_fallback_spec(messages),
        2 <= messages_estimate_spec(messages.take(i)) <= messages_estimate_spec(messages),
    decreases messages.len() - i,
{
    if i < messages.len() {
        lemma_messages_step(messages, i);
        lemma_messages_monotone(messages, i + 1);
        lemma_messages_nonneg(messages.take(i));
    } else {
        assert(messages.take(i) =~= messages);
        lemma_messages_nonneg(messages);
    }
}

proof fn lemma_messages_nonneg(messages: Seq<String>)
    ensures
        0 <= messages_fallback_spec(messages),
        2 <= messages_estimate_spec(messages),
    decreases messages.len(),
{
    if messages.len() > 0 {
        lemma_messages_nonneg(messages.drop_last());
    }
}

/// Estimates the prompt tokens of several messages (about as OpenAI counts
/// them). Falls back to character counts when the encoder is unavailable.
pub fn estimate_messages_tokens(messages: &[String]) -> (r: i64)
    requires
        messages_tokens_spec(messages@) <= i64::MAX,
    ensures
        r == messages_tokens_spec(messages@),
{
    let available = encoder_is_available();
    let mut total: i64 = 0;
    let mut i: usize = 0;
    if available {
        while i < messages.len()
            invariant
                encoder_available(),
                i <= messages@.len(),
                messages_estimate_spec(messages@) <= i64::MAX,
                total == messages_estimate_spec(messages@.take(i as int)) - 2,
            decreases messages@.len() - i,
        {
            proof {
                lemma_messages_step(messages@, i as int);
                lemma_messages_monotone(messages@, i as int + 1);
            }
            let m = messages[i].as_str();
            assert(m@ == messages@[i as int]@);
            let n = count_message(m);
            proof { lemma_messages_nonneg(messages@.take(i as int)); }
            assert(n <= i64::MAX);
            total = total + n as i64 + 4;
            i = i + 1;
        }
        proof {
            assert(messages@.take(messages@.len() as int) =~= messages@);
        }
        total + 2
    } else {
        while i < messages.len()
            invariant
                !encoder_available(),
                i <= messages@.len(),
                messages_fallback_spec(messages@) <= i64::MAX,
                total == messages_fallback_spec(messages@.take(i as int)),
            decreases messages@.len() - i,
        {
            proof {
                lemma_messages_step(messages@, i as int);
                lemma_messages_monotone(messages@, i as int + 1);
            }
            let m = messages[i].as_str();
            let n = m.unicode_len();
            assert(m@ == messages@[i as int]@);
            proof { lemma_messages_nonneg(messages@.take(i as int)); }
            assert(n <= i64::MAX);
            total = total + n as i64 + 4;
            i = i + 1;
        }
        proof {
            assert(messages@.take(messages@.len() as int) =~= messages@);
        }
        total
    }
}

/// `estimate_messages_tokens` when its result fits in an `i64`, `None`
/// otherwise.
pub fn try_estimate_messages_tokens(messages: &[String]) -> (r: Option<i64>)
    ensures
        messages_tokens_spec(messages@) <= i64::MAX ==> r == Some(messages_tokens_spec(messages@) as i64),
        messages_tokens_spec(messages@) > i64::MAX ==> r is None,
{
    let available = encoder_is_available();
    let mut total: i64 = if available { 2 } else { 0 };
    let mut i: usize = 0;
    while i < messages.len()
        invariant
            available == encoder_available(),
            i <= messages@.len(),
            total == messages_tokens_spec(messages@.take(i as int)),
        decreases messages@.len() - i,
    {
        proof {
            lemma_messages_step(messages@, i as int);
            lemma_messages_monotone(messages@, i as int + 1);
            lemma_messages_nonneg(messages@.take(i as int));
        }
        let m = messages[i].as_str();
        assert(m@ == messages@[i as int]@);
        let n: usize = if available {
            count_message(m)
        } else {
            m.unicode_len()
        };
        if n as u64 > i64::MAX as u64 {
            return None;
        }
        match total.checked_add(n as i64) {
            Some(t) => match t.checked_add(4) {
                Some(t2) => { total = t2; },
                None => { return None; },
            },
            None => { return None; },
        }
        i = i + 1;
    }
    proof {
        assert(messages@.take(messages@.len() as int) =~= messages@);
    }
    Some(estimate_messages_tokens(messages))
}

} // verus!
