//! The identity of one bridge session: the request id the payload must
//! carry and the bearer token the request must present.
use crate::text::{string_from_chars, to_string};
use vstd::prelude::*;

verus! {

#[derive(Debug, Clone, PartialEq, Eq)]
pub struct BridgeSession {
    pub request_id: String,
    pub bearer_token: String,
}

#[derive(Debug, Clone, Copy, PartialEq, Eq)]
pub enum BridgeSessionError {
    EntropyUnavailable,
}

/// The length of a generated request id, in hex digits (128 bits).
pub const REQUEST_ID_HEX_DIGITS: usize = 32;

/// The length of a generated bearer token, in hex digits (256 bits).
pub const BEARER_TOKEN_HEX_DIGITS: usize = 64;

pub open spec fn hex_digit(n: u64) -> char {
    if n < 10 {
        (('0' as u64) + n) as char
    } else {
        (('a' as u64) + n - 10) as char
    }
}

pub open spec fn is_lower_hex(c: char) -> bool {
    ('0' <= c <= '9') || ('a' <= c <= 'f')
}

/// The 16 lower-case hex digits of `x`, most significant first.
pub open spec fn hex16(x: u64) -> Seq<char> {
    Seq::new(16, |i: int| hex_digit((x >> ((60 - 4 * i) as u64)) & 0xFu64))
}

/// A freshly generated session identifier of `digits` lower-case hex digits.
pub open spec fn is_generated_id(s: Seq<char>, digits: nat) -> bool {
    s.len() == digits && forall|i: int| 0 <= i < s.len() ==> #[trigger] is_lower_hex(s[i])
}

/// Calls `RandomState::new`: hasher keys seeded from the operating
/// system's randomness, which differ from call to call. Nothing is claimed
/// of them.
#[verifier::external_body]
fn new_random_state() -> (res: std::collections::hash_map::RandomState) {
    std::collections::hash_map::RandomState::new()
}

/// Calls `BuildHasher::hash_one` on `state` with the byte 0. Its value
/// depends on the state's random keys; nothing is claimed of it.
#[verifier::external_body]
fn hash_zero(state: &std::collections::hash_map::RandomState) -> (res: u64) {
    std::hash::BuildHasher::hash_one(state, 0u8)
}

/// A 64-bit word drawn from a freshly seeded hasher.
fn random_u64() -> (res: u64) {
    let state = new_random_state();
    hash_zero(&state)
}

fn hex_digit_char(n: u64) -> (res: char)
    requires
        n < 16,
    ensures
        res == hex_digit(n),
        is_lower_hex(res),
{
    if n < 10 {
        ((48 + n) as u8) as char
    } else {
        ((97 + n - 10) as u8) as char
    }
}

/// Appends the 16 hex digits of `x` to `out`.
fn push_hex16(out: &mut Vec<char>, x: u64)
    ensures
        final(out)@ == old(out)@ + hex16(x),
{
    let ghost start = out@;
    let mut i: usize = 0;
    while i < 16
        invariant
            i <= 16,
            out@ == start + hex16(x).take(i as int),
        decreases 16 - i,
    {
        let sh: u64 = 60 - 4 * (i as u64);
        assert(sh == (60 - 4 * i) as u64);
        let nib = (x >> sh) & 0xFu64;
        assert(nib < 16) by (bit_vector)
            requires
                nib == (x >> sh) & 0xFu64,
        ;
        out.push(hex_digit_char(nib));
        i = i + 1;
        assert(out@ =~= start + hex16(x).take(i as int));
    }
    assert(hex16(x).take(16) =~= hex16(x));
}

proof fn lemma_hex16_lower(x: u64)
    ensures
        forall|i: int| 0 <= i < 16 ==> #[trigger] is_lower_hex(hex16(x)[i]),
{
    assert forall|i: int| 0 <= i < 16 implies #[trigger] is_lower_hex(hex16(x)[i]) by {
        let sh = (60 - 4 * i) as u64;
        let nib = (x >> sh) & 0xFu64;
        assert(nib < 16) by (bit_vector)
            requires
                nib == (x >> sh) & 0xFu64,
        ;
    }
}

/// The hex digits of `words`, 16 per word, in order.
pub open spec fn hex_words(words: Seq<u64>) -> Seq<char>
    decreases words.len(),
{
    if words.len() == 0 {
        Seq::empty()
    } else {
        hex_words(words.drop_last()) + hex16(words.last())
    }
}

/// Spells drawn 64-bit words as an id of lower-case hex digits.
pub fn hex_id(words: &[u64]) -> (res: String)
    ensures
        res@ == hex_words(words@),
        is_generated_id(res@, 16 * words@.len()),
{
    let mut out: Vec<char> = Vec::new();
    let mut k: usize = 0;
    while k < words.len()
        invariant
            k <= words.len(),
            out@ == hex_words(words@.take(k as int)),
            is_generated_id(out@, 16 * k as nat),
        decreases words.len() - k,
    {
        let ghost before = out@;
        let x = words[k];
        push_hex16(&mut out, x);
        proof {
            assert(words@.take(k + 1).drop_last() =~= words@.take(k as int));
            assert(words@.take(k + 1).last() == x);
            lemma_hex16_lower(x);
            assert forall|i: int| 0 <= i < out@.len() implies #[trigger] is_lower_hex(out@[i]) by {
                if i < before.len() {
                    assert(out@[i] == before[i]);
                } else {
                    assert(out@[i] == hex16(x)[i - before.len()]);
                }
            }
        }
        k = k + 1;
    }
    assert(words@.take(words.len() as int) =~= words@);
    string_from_chars(out.as_slice())
}

impl BridgeSession {
    pub fn new(request_id: &str, bearer_token: &str) -> (res: Self)
        ensures
            res.request_id@ == request_id@,
            res.bearer_token@ == bearer_token@,
    {
        BridgeSession { request_id: to_string(request_id), bearer_token: to_string(bearer_token) }
    }

    /// A new session with a random 128-bit request id and a random 256-bit
    /// bearer token, both in lower-case hex; their lengths differ, so the
    /// token can never be mistaken for the request id.
    pub fn generate() -> (res: Result<Self, BridgeSessionError>)
        ensures
            res is Ok,
            res matches Ok(s) ==> is_generated_id(s.request_id@, REQUEST_ID_HEX_DIGITS as nat)
                && is_generated_id(s.bearer_token@, BEARER_TOKEN_HEX_DIGITS as nat)
                && s.request_id@ != s.bearer_token@,
    {
        let request_words = [random_u64(), random_u64()];
        let token_words = [random_u64(), random_u64(), random_u64(), random_u64()];
        Ok(BridgeSession::from_words(&request_words, &token_words))
    }

    /// The session spelled by drawn words: two for the request id (128
    /// bits), four for the bearer token (256 bits).
    pub fn from_words(request_words: &[u64; 2], token_words: &[u64; 4]) -> (res: Self)
        ensures
            res.request_id@ == hex_words(request_words@),
            res.bearer_token@ == hex_words(token_words@),
            is_generated_id(res.request_id@, REQUEST_ID_HEX_DIGITS as nat),
            is_generated_id(res.bearer_token@, BEARER_TOKEN_HEX_DIGITS as nat),
            res.request_id@ != res.bearer_token@,
    {
        let request_id = hex_id(request_words.as_slice());
        let bearer_token = hex_id(token_words.as_slice());
        BridgeSession { request_id, bearer_token }
    }
}

} // verus!
