//! The browser bridge payload (protocol version 1) and its validation.
use crate::text::{
    append_chars, append_str, decimal, decimal_chars, is_blank, is_blank_str, str_eq,
    string_from_chars,
};
use vstd::prelude::*;

verus! {

pub const PROTOCOL_VERSION: u16 = 1;

pub const PROVIDER_SUNO: &'static str = "suno";

pub const MAX_TIMING_RECORDS: usize = 5000;

/// A number of seconds, held as the bit pattern of an IEEE 754 binary64
/// value (what `f64::to_bits` returns).
#[derive(Debug, Clone, Copy, PartialEq, Eq)]
pub struct Seconds {
    pub bits: u64,
}

pub open spec fn f64_exponent(bits: u64) -> u64 {
    (bits >> 52u64) & 0x7FFu64
}

pub open spec fn f64_mantissa(bits: u64) -> u64 {
    bits & 0xF_FFFF_FFFF_FFFFu64
}

pub open spec fn f64_magnitude(bits: u64) -> u64 {
    bits & 0x7FFF_FFFF_FFFF_FFFFu64
}

pub open spec fn f64_sign(bits: u64) -> bool {
    (bits >> 63u64) == 1
}

/// `f64::is_finite`: neither an infinity nor a NaN.
pub open spec fn f64_is_finite(bits: u64) -> bool {
    f64_exponent(bits) != 0x7FF
}

pub open spec fn f64_is_nan(bits: u64) -> bool {
    f64_exponent(bits) == 0x7FF && f64_mantissa(bits) != 0
}

/// A key that orders the non-NaN binary64 values as the reals they denote:
/// the magnitude bits grow with the absolute value, and both zeros map to 0.
pub open spec fn f64_order_key(bits: u64) -> int {
    if f64_sign(bits) {
        -(f64_magnitude(bits) as int)
    } else {
        f64_magnitude(bits) as int
    }
}

/// The `<` of IEEE 754 binary64 values: false as soon as a NaN takes part.
pub open spec fn f64_lt(a: u64, b: u64) -> bool {
    !f64_is_nan(a) && !f64_is_nan(b) && f64_order_key(a) < f64_order_key(b)
}

/// `+0.0`.
pub open spec fn f64_zero() -> u64 {
    0
}

impl Seconds {
    pub fn from_bits(bits: u64) -> (res: Seconds)
        ensures
            res.bits == bits,
    {
        Seconds { bits }
    }

    pub fn to_bits(&self) -> (res: u64)
        ensures
            res == self.bits,
    {
        self.bits
    }

    pub fn is_finite(&self) -> (res: bool)
        ensures
            res == f64_is_finite(self.bits),
    {
        ((self.bits >> 52u64) & 0x7FFu64) != 0x7FF
    }

    pub fn is_nan(&self) -> (res: bool)
        ensures
            res == f64_is_nan(self.bits),
    {
        ((self.bits >> 52u64) & 0x7FFu64) == 0x7FF && (self.bits & 0xF_FFFF_FFFF_FFFFu64) != 0
    }

    /// `self < other` on the values the bit patterns denote.
    pub fn lt(&self, other: &Seconds) -> (res: bool)
        ensures
            res == f64_lt(self.bits, other.bits),
    {
        if self.is_nan() || other.is_nan() {
            return false;
        }
        let a_neg = (self.bits >> 63u64) == 1;
        let b_neg = (other.bits >> 63u64) == 1;
        let a_mag = self.bits & 0x7FFF_FFFF_FFFF_FFFFu64;
        let b_mag = other.bits & 0x7FFF_FFFF_FFFF_FFFFu64;
        if a_neg {
            if b_neg {
                a_mag > b_mag
            } else {
                a_mag != 0 || b_mag != 0
            }
        } else {
            if b_neg {
                false
            } else {
                a_mag < b_mag
            }
        }
    }
}

#[derive(Debug, Clone, Copy, PartialEq, Eq)]
pub enum PayloadType {
    AlignedLyrics,
}

#[derive(Debug, Clone, PartialEq)]
pub struct AlignedLyricTiming {
    pub text: String,
    pub start_seconds: Seconds,
    pub end_seconds: Seconds,
}

#[derive(Debug, Clone, PartialEq)]
pub struct BridgePayload {
    pub protocol_version: u16,
    pub request_id: String,
    pub provider: String,
    pub payload_type: PayloadType,
    pub song_id: String,
    pub timings: Vec<AlignedLyricTiming>,
}

#[allow(inconsistent_fields)]
#[derive(Debug, Clone, PartialEq)]
pub enum BridgeProtocolError {
    UnsupportedProtocolVersion { actual: u16, expected: u16 },
    MissingField(&'static str),
    RequestIdMismatch,
    UnsupportedProvider(String),
    EmptyTimings,
    TooManyTimingRecords { actual: usize, max: usize },
    InvalidTiming { index: usize, reason: &'static str },
}

/// The text that describes a protocol error.
pub open spec fn protocol_error_message(e: BridgeProtocolError) -> Seq<char> {
    match e {
        BridgeProtocolError::UnsupportedProtocolVersion { actual, expected } => "unsupported protocol_version "@
            + decimal(actual as nat) + "; expected "@ + decimal(expected as nat),
        BridgeProtocolError::MissingField(field) => "missing required field "@ + field@,
        BridgeProtocolError::RequestIdMismatch => "request_id does not match session"@,
        BridgeProtocolError::UnsupportedProvider(provider) => "unsupported provider "@ + provider@,
        BridgeProtocolError::EmptyTimings => "timings must not be empty"@,
        BridgeProtocolError::TooManyTimingRecords { actual, max } => "too many timing records: "@
            + decimal(actual as nat) + "; max "@ + decimal(max as nat),
        BridgeProtocolError::InvalidTiming { index, reason } => "invalid timing at index "@
            + decimal(index as nat) + ": "@ + reason@,
    }
}

impl BridgeProtocolError {
    /// The text that `Display` would write for the error.
    pub fn message(&self) -> (res: String)
        ensures
            res@ == protocol_error_message(*self),
    {
        let mut out: Vec<char> = Vec::new();
        match self {
            BridgeProtocolError::UnsupportedProtocolVersion { actual, expected } => {
                append_str(&mut out, "unsupported protocol_version ");
                append_chars(&mut out, decimal_chars(*actual as usize).as_slice());
                append_str(&mut out, "; expected ");
                append_chars(&mut out, decimal_chars(*expected as usize).as_slice());
            },
            BridgeProtocolError::MissingField(field) => {
                append_str(&mut out, "missing required field ");
                append_str(&mut out, field);
            },
            BridgeProtocolError::RequestIdMismatch => {
                append_str(&mut out, "request_id does not match session");
            },
            BridgeProtocolError::UnsupportedProvider(provider) => {
                append_str(&mut out, "unsupported provider ");
                append_str(&mut out, provider.as_str());
            },
            BridgeProtocolError::EmptyTimings => {
                append_str(&mut out, "timings must not be empty");
            },
            BridgeProtocolError::TooManyTimingRecords { actual, max } => {
                append_str(&mut out, "too many timing records: ");
                append_chars(&mut out, decimal_chars(*actual).as_slice());
                append_str(&mut out, "; max ");
                append_chars(&mut out, decimal_chars(*max).as_slice());
            },
            BridgeProtocolError::InvalidTiming { index, reason } => {
                append_str(&mut out, "invalid timing at index ");
                append_chars(&mut out, decimal_chars(*index).as_slice());
                append_str(&mut out, ": ");
                append_str(&mut out, reason);
            },
        }
        string_from_chars(out.as_slice())
    }
}

/// What is wrong with one timing record, in the order the checks are made.
pub open spec fn timing_problem(t: AlignedLyricTiming) -> Option<&'static str> {
    if is_blank(t.text@) {
        Some("text is required")
    } else if !f64_is_finite(t.start_seconds.bits) || !f64_is_finite(t.end_seconds.bits) {
        Some("timestamps must be finite")
    } else if f64_lt(t.start_seconds.bits, f64_zero()) {
        Some("start_seconds must be non-negative")
    } else if f64_lt(t.end_seconds.bits, t.start_seconds.bits) {
        Some("end_seconds must be greater than or equal to start_seconds")
    } else {
        None
    }
}

/// The index of the first timing record that has a problem.
pub open spec fn first_bad_timing(ts: Seq<AlignedLyricTiming>, from: nat) -> Option<nat>
    decreases ts.len() - from,
{
    if from >= ts.len() {
        None
    } else if timing_problem(ts[from as int]) is Some {
        Some(from)
    } else {
        first_bad_timing(ts, from + 1)
    }
}

proof fn lemma_first_bad_timing(ts: Seq<AlignedLyricTiming>, from: nat)
    ensures
        match first_bad_timing(ts, from) {
            Some(i) => from <= i < ts.len() && timing_problem(ts[i as int]) is Some && forall|j: int|
                from <= j < i ==> timing_problem(#[trigger] ts[j]) is None,
            None => forall|j: int| from <= j < ts.len() ==> timing_problem(#[trigger] ts[j]) is None,
        },
    decreases ts.len() - from,
{
    if from < ts.len() && timing_problem(ts[from as int]) is None {
        lemma_first_bad_timing(ts, from + 1);
    }
}

/// Every timing record of an accepted payload is sound: its text is not
/// blank, both times are finite, the start is not negative and the end is
/// not before the start. A payload with one unsound record is refused, and
/// the refusal names the first unsound record.
pub proof fn law_accepted_timings_are_sound(p: BridgePayload, expected: Seq<char>, max: usize)
    ensures
        p.accepted(expected, max) ==> forall|i: int|
            0 <= i < p.timings@.len() ==> {
                let t = #[trigger] p.timings@[i];
                &&& !is_blank(t.text@)
                &&& f64_is_finite(t.start_seconds.bits) && f64_is_finite(t.end_seconds.bits)
                &&& !f64_lt(t.start_seconds.bits, f64_zero())
                &&& !f64_lt(t.end_seconds.bits, t.start_seconds.bits)
            },
        (exists|i: int| 0 <= i < p.timings@.len() && #[trigger] timing_problem(p.timings@[i]) is Some)
            ==> !p.accepted(expected, max),
        forall|e: BridgeProtocolError|
            #![trigger p.rejected_with(e, expected, max)]
            p.rejected_with(e, expected, max) && e is InvalidTiming ==> {
                let k = e->InvalidTiming_index as int;
                &&& 0 <= k < p.timings@.len()
                &&& timing_problem(p.timings@[k]) == Some(e->InvalidTiming_reason)
                &&& forall|j: int| 0 <= j < k ==> timing_problem(#[trigger] p.timings@[j]) is None
            },
{
    lemma_first_bad_timing(p.timings@, 0);
    assert forall|i: int| 0 <= i < p.timings@.len() && p.accepted(expected, max) implies {
        let t = #[trigger] p.timings@[i];
        &&& !is_blank(t.text@)
        &&& f64_is_finite(t.start_seconds.bits) && f64_is_finite(t.end_seconds.bits)
        &&& !f64_lt(t.start_seconds.bits, f64_zero())
        &&& !f64_lt(t.end_seconds.bits, t.start_seconds.bits)
    } by {
        assert(timing_problem(p.timings@[i]) is None);
    }
}

impl AlignedLyricTiming {
    /// Checks one timing record, reported at position `index`.
    pub fn validate(&self, index: usize) -> (res: Result<(), BridgeProtocolError>)
        ensures
            match timing_problem(*self) {
                None => res is Ok,
                Some(reason) => res == Err::<(), BridgeProtocolError>(
                    BridgeProtocolError::InvalidTiming { index, reason },
                ),
            },
    {
        if is_blank_str(self.text.as_str()) {
            return Err(BridgeProtocolError::InvalidTiming { index, reason: "text is required" });
        }
        if !self.start_seconds.is_finite() || !self.end_seconds.is_finite() {
            return Err(
                BridgeProtocolError::InvalidTiming { index, reason: "timestamps must be finite" },
            );
        }
        let zero = Seconds::from_bits(0);
        if self.start_seconds.lt(&zero) {
            return Err(
                BridgeProtocolError::InvalidTiming {
                    index,
                    reason: "start_seconds must be non-negative",
                },
            );
        }
        if self.end_seconds.lt(&self.start_seconds) {
            return Err(
                BridgeProtocolError::InvalidTiming {
                    index,
                    reason: "end_seconds must be greater than or equal to start_seconds",
                },
            );
        }
        Ok(())
    }
}

impl BridgePayload {
    /// The payload passes every check against the session's request id and a
    /// limit of `max` timing records.
    pub open spec fn accepted(&self, expected: Seq<char>, max: usize) -> bool {
        &&& self.protocol_version == PROTOCOL_VERSION
        &&& !is_blank(self.request_id@)
        &&& self.request_id@ == expected
        &&& self.provider@ == PROVIDER_SUNO@
        &&& !is_blank(self.song_id@)
        &&& self.timings.len() > 0
        &&& self.timings.len() <= max
        &&& first_bad_timing(self.timings@, 0) is None
    }

    /// `e` is the error that the first failing check reports.
    pub open spec fn rejected_with(
        &self,
        e: BridgeProtocolError,
        expected: Seq<char>,
        max: usize,
    ) -> bool {
        if self.protocol_version != PROTOCOL_VERSION {
            e == BridgeProtocolError::UnsupportedProtocolVersion {
                actual: self.protocol_version,
                expected: PROTOCOL_VERSION,
            }
        } else if is_blank(self.request_id@) {
            e == BridgeProtocolError::MissingField("request_id")
        } else if self.request_id@ != expected {
            e == BridgeProtocolError::RequestIdMismatch
        } else if self.provider@ != PROVIDER_SUNO@ {
            e matches BridgeProtocolError::UnsupportedProvider(p) && p@ == self.provider@
        } else if is_blank(self.song_id@) {
            e == BridgeProtocolError::MissingField("song_id")
        } else if self.timings.len() == 0 {
            e == BridgeProtocolError::EmptyTimings
        } else if self.timings.len() > max {
            e == BridgeProtocolError::TooManyTimingRecords { actual: self.timings.len(), max }
        } else {
            match first_bad_timing(self.timings@, 0) {
                Some(i) => e == BridgeProtocolError::InvalidTiming {
                    index: i as usize,
                    reason: timing_problem(self.timings@[i as int])->0,
                },
                None => false,
            }
        }
    }

    /// `validate_with_limits` with the protocol's own limit of timing records.
    pub fn validate(&self, expected_request_id: &str) -> (res: Result<(), BridgeProtocolError>)
        ensures
            res is Ok <==> self.accepted(expected_request_id@, MAX_TIMING_RECORDS),
            res matches Err(e) ==> self.rejected_with(
                e,
                expected_request_id@,
                MAX_TIMING_RECORDS,
            ),
    {
        self.validate_with_limits(expected_request_id, MAX_TIMING_RECORDS)
    }

    /// Checks the payload in a fixed order and reports the first failing check.
    pub fn validate_with_limits(&self, expected_request_id: &str, max_timing_records: usize) -> (res:
        Result<(), BridgeProtocolError>)
        ensures
            res is Ok <==> self.accepted(expected_request_id@, max_timing_records),
            res matches Err(e) ==> self.rejected_with(
                e,
                expected_request_id@,
                max_timing_records,
            ),
    {
        if self.protocol_version != PROTOCOL_VERSION {
            return Err(
                BridgeProtocolError::UnsupportedProtocolVersion {
                    actual: self.protocol_version,
                    expected: PROTOCOL_VERSION,
                },
            );
        }
        if is_blank_str(self.request_id.as_str()) {
            return Err(BridgeProtocolError::MissingField("request_id"));
        }
        if !str_eq(self.request_id.as_str(), expected_request_id) {
            return Err(BridgeProtocolError::RequestIdMismatch);
        }
        if !str_eq(self.provider.as_str(), PROVIDER_SUNO) {
            return Err(BridgeProtocolError::UnsupportedProvider(self.provider.clone()));
        }
        if is_blank_str(self.song_id.as_str()) {
            return Err(BridgeProtocolError::MissingField("song_id"));
        }
        if self.timings.len() == 0 {
            return Err(BridgeProtocolError::EmptyTimings);
        }
        if self.timings.len() > max_timing_records {
            return Err(
                BridgeProtocolError::TooManyTimingRecords {
                    actual: self.timings.len(),
                    max: max_timing_records,
                },
            );
        }
        let mut index: usize = 0;
        while index < self.timings.len()
            invariant
                index <= self.timings.len(),
                self.protocol_version == PROTOCOL_VERSION,
                !is_blank(self.request_id@),
                self.request_id@ == expected_request_id@,
                self.provider@ == PROVIDER_SUNO@,
                !is_blank(self.song_id@),
                0 < self.timings.len() <= max_timing_records,
                first_bad_timing(self.timings@, 0) == first_bad_timing(self.timings@, index as nat),
            decreases self.timings.len() - index,
        {
            let checked = self.timings[index].validate(index);
            if checked.is_err() {
                assert(timing_problem(self.timings@[index as int]) is Some);
                assert(first_bad_timing(self.timings@, index as nat) == Some(index as nat));
                return checked;
            }
            index = index + 1;
        }
        Ok(())
    }
}

} // verus!
