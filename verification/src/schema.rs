//! Schema registry: the byte layout of each account type, with its
//! deterministic encoding and the declared field-width truncation rule.
//!
//! The counter schema stores the owner in a fixed-width slot (see
//! `crate::address::truncated_owner` for the lossy-but-deterministic
//! truncation of wider identities) and the counter value beside it, both in
//! little-endian order.

use vstd::prelude::*;

use crate::bytes::{le_word, lemma_le_round_trip, read_u64_le, u64_le_bytes, u64_to_le};

verus! {

/// The compressed counter record: the stored form of its single owner, and a
/// monotonically incremented counter. The shape never changes across the
/// lifecycle; only the values do.
#[derive(Clone, Copy, Debug, PartialEq, Eq, Structural)]
pub struct CounterCompressedAccount {
    pub owner: u64,
    pub counter: u64,
}

impl Default for CounterCompressedAccount {
    /// The type's zero value, the payload a fresh account starts from.
    fn default() -> (r: Self)
        ensures
            r == (CounterCompressedAccount { owner: 0, counter: 0 }),
    {
        CounterCompressedAccount { owner: 0, counter: 0 }
    }
}

/// Auxiliary state carried by the no-operation instruction: a counter record
/// that the instruction decodes and otherwise ignores.
#[derive(Clone, Copy, Debug, PartialEq, Eq, Structural)]
pub struct State {
    pub counter: CounterCompressedAccount,
}

/// The namespace tag of the counter schema: the bytes of "counter".
pub open spec fn counter_tag() -> Seq<u8> {
    seq![99u8, 111u8, 117u8, 110u8, 116u8, 101u8, 114u8]
}

/// The namespace tag of the counter schema, as a fresh buffer.
pub fn counter_tag_bytes() -> (r: Vec<u8>)
    ensures
        r@ == counter_tag(),
{
    let mut r: Vec<u8> = Vec::new();
    r.push(99);
    r.push(111);
    r.push(117);
    r.push(110);
    r.push(116);
    r.push(101);
    r.push(114);
    proof {
        assert(r@ =~= counter_tag());
    }
    r
}

/// Byte width of an encoded counter record.
pub const ENCODED_LEN: usize = 16;

/// The deterministic encoding of a counter record: owner, then counter,
/// little-endian.
pub open spec fn encoded(p: CounterCompressedAccount) -> Seq<u8> {
    u64_le_bytes(p.owner) + u64_le_bytes(p.counter)
}

/// The record read back from an encoding; nothing when the length is wrong.
pub open spec fn decoded(b: Seq<u8>) -> Option<CounterCompressedAccount> {
    if b.len() == ENCODED_LEN {
        Some(
            CounterCompressedAccount {
                owner: le_word(b.subrange(0, 8)),
                counter: le_word(b.subrange(8, 16)),
            },
        )
    } else {
        None
    }
}

/// Encodes a counter record into its declared byte layout.
pub fn encode(p: &CounterCompressedAccount) -> (r: Vec<u8>)
    ensures
        r@ == encoded(*p),
{
    let mut r: Vec<u8> = u64_to_le(p.owner);
    let mut tail: Vec<u8> = u64_to_le(p.counter);
    r.append(&mut tail);
    r
}

/// Decodes a counter record from its declared byte layout; rejects any other
/// length.
pub fn decode(b: &Vec<u8>) -> (r: Option<CounterCompressedAccount>)
    ensures
        r == decoded(b@),
{
    if b.len() != ENCODED_LEN {
        return None;
    }
    let owner: u64 = read_u64_le(b, 0);
    let counter: u64 = read_u64_le(b, 8);
    Some(CounterCompressedAccount { owner, counter })
}

/// Round trip: decoding an encoding gives back the record, for every in-range
/// record value of the schema.
pub proof fn lemma_round_trip(p: CounterCompressedAccount)
    ensures
        decoded(encoded(p)) == Some(p),
{
    let e = encoded(p);
    assert(e.subrange(0, 8) =~= u64_le_bytes(p.owner));
    assert(e.subrange(8, 16) =~= u64_le_bytes(p.counter));
    lemma_le_round_trip(p.owner);
    lemma_le_round_trip(p.counter);
}

/// The deterministic encoding of the no-operation auxiliary state: its
/// counter record's encoding.
pub open spec fn encoded_state(s: State) -> Seq<u8> {
    encoded(s.counter)
}

/// The auxiliary state read back from an encoding.
pub open spec fn decoded_state(b: Seq<u8>) -> Option<State> {
    match decoded(b) {
        Some(p) => Some(State { counter: p }),
        None => None,
    }
}

/// Encodes the no-operation auxiliary state.
pub fn encode_state(s: &State) -> (r: Vec<u8>)
    ensures
        r@ == encoded_state(*s),
{
    encode(&s.counter)
}

/// Decodes the no-operation auxiliary state; rejects any other length.
pub fn decode_state(b: &Vec<u8>) -> (r: Option<State>)
    ensures
        r == decoded_state(b@),
{
    match decode(b) {
        Some(p) => Some(State { counter: p }),
        None => None,
    }
}

/// Round trip for the auxiliary state schema.
pub proof fn lemma_state_round_trip(s: State)
    ensures
        decoded_state(encoded_state(s)) == Some(s),
{
    lemma_round_trip(s.counter);
}

} // verus!
