//! Coordination core of a crowdfunded-task platform.
//!
//! Donors pool funds toward a task inside a campaign, vote on the task's
//! budget with stake-weighted votes, and the pooled value is paid out,
//! refunded pro-rata, or split by dispute resolution.  This crate holds the
//! four cooperating engines — the campaign and task state machines, the
//! Sybil-resistant budget aggregator, the escrow ledger, and the dispute
//! controller — as verified functions over plain values.  Persisting the
//! records, checking signatures and moving tokens is the surrounding
//! ledger's job; every function here takes the authenticated principals and
//! the current time as arguments and states exactly what it decides.

use vstd::prelude::*;

pub mod campaign;
pub mod dispute;
pub mod escrow;
pub mod governance;
pub mod median;
pub mod proofs;
pub mod task;
pub mod voting;

verus! {

/// An opaque 32-byte principal (a creator, contributor, recipient or
/// authority), stored as two 128-bit halves so that equality in contracts is
/// field equality.
#[derive(Clone, Copy, PartialEq, Eq, Structural, Debug)]
pub struct AccountId {
    pub hi: u128,
    pub lo: u128,
}

impl AccountId {
    /// A small principal for tests and examples.
    pub fn from_u64(n: u64) -> (r: AccountId)
        ensures
            r == (AccountId { hi: 0, lo: n as u128 }),
    {
        AccountId { hi: 0, lo: n as u128 }
    }
}

/// The UTF-8 bytes of a string value; all string bounds in this crate are
/// byte-length bounds.
pub open spec fn bytes_of(s: Seq<char>) -> Seq<u8> {
    vstd::utf8::encode_utf8(s)
}

/// Bytes allowed in a creator-chosen identifier: ASCII letters (0x41-0x5a,
/// 0x61-0x7a), digits (0x30-0x39), dash (0x2d) and underscore (0x5f).
pub open spec fn is_identifier_byte(c: u8) -> bool {
    (0x61 <= c && c <= 0x7a) || (0x41 <= c && c <= 0x5a) || (0x30 <= c && c <= 0x39) || c == 0x2d
        || c == 0x5f
}

/// A creator-chosen identifier: 1 to `max` bytes, all from the identifier
/// alphabet.
pub open spec fn is_valid_identifier(s: Seq<u8>, max: int) -> bool {
    1 <= s.len() <= max && (forall|i: int| 0 <= i < s.len() ==> is_identifier_byte(#[trigger] s[i]))
}

/// Check a creator-chosen identifier against the alphabet and a length cap.
pub fn validate_identifier(s: &str, max: usize) -> (r: bool)
    ensures
        r == is_valid_identifier(bytes_of(s@), max as int),
{
    let bytes = s.as_bytes();
    if bytes.len() < 1 || bytes.len() > max {
        return false;
    }
    let mut i: usize = 0;
    while i < bytes.len()
        invariant
            0 <= i <= bytes@.len(),
            bytes@ == bytes_of(s@),
            1 <= bytes@.len() <= max,
            forall|j: int| 0 <= j < i ==> is_identifier_byte(#[trigger] bytes@[j]),
        decreases bytes@.len() - i,
    {
        let c = bytes[i];
        let ok = (c >= 0x61 && c <= 0x7a) || (c >= 0x41 && c <= 0x5a) || (c >= 0x30 && c <= 0x39)
            || c == 0x2d || c == 0x5f;
        if !ok {
            return false;
        }
        i = i + 1;
    }
    true
}

} // verus!
