//! Address deriver: the deterministic address of a logical account, computed
//! from a namespace tag and an owner identity.
//!
//! The address holds one length byte, the tag padded with zeros to a fixed
//! width, and the owner's stored form at a fixed offset. Identical inputs
//! always give the identical address, and two owners with distinct stored
//! forms never collide under one tag.

use vstd::prelude::*;

use crate::bytes::{le_word, lemma_le_bytes_injective, u64_le_bytes, u64_to_le};
use crate::EngineError;

verus! {

/// Widest namespace tag the deriver accepts, in bytes.
pub const MAX_TAG_LEN: usize = 16;

/// Width of the stored owner slot, in bytes.
pub const OWNER_WIDTH: usize = 8;

/// A caller identity as the host's signature verification hands it over: an
/// opaque byte string, possibly wider than the stored owner slot.
#[derive(Clone, Debug, PartialEq, Eq)]
pub struct Identity {
    pub bytes: Vec<u8>,
}

/// The eight bytes that fill the owner slot for an identity: its low-order
/// bytes, zero-extended when the identity is narrower than the slot.
pub open spec fn owner_slot(id: Seq<u8>) -> Seq<u8> {
    Seq::new(OWNER_WIDTH as nat, |i: int| if i < id.len() { id[i] } else { 0u8 })
}

/// The owner identity truncated to its stored form. Lossy but deterministic:
/// two identities that agree on their low-order bytes store the same owner,
/// an accepted compactness trade-off of the schema.
pub open spec fn truncated_owner(id: Seq<u8>) -> u64 {
    le_word(owner_slot(id))
}

/// The stored form of an identity, as the schema records it.
pub fn truncate_identity(id: &Identity) -> (r: u64)
    ensures
        r == truncated_owner(id.bytes@),
{
    let n: usize = id.bytes.len();
    let b0: u8 = if n > 0 { id.bytes[0] } else { 0 };
    let b1: u8 = if n > 1 { id.bytes[1] } else { 0 };
    let b2: u8 = if n > 2 { id.bytes[2] } else { 0 };
    let b3: u8 = if n > 3 { id.bytes[3] } else { 0 };
    let b4: u8 = if n > 4 { id.bytes[4] } else { 0 };
    let b5: u8 = if n > 5 { id.bytes[5] } else { 0 };
    let b6: u8 = if n > 6 { id.bytes[6] } else { 0 };
    let b7: u8 = if n > 7 { id.bytes[7] } else { 0 };
    let r: u64 = (b0 as u64)
        | ((b1 as u64) << 8u64)
        | ((b2 as u64) << 16u64)
        | ((b3 as u64) << 24u64)
        | ((b4 as u64) << 32u64)
        | ((b5 as u64) << 40u64)
        | ((b6 as u64) << 48u64)
        | ((b7 as u64) << 56u64);
    proof {
        assert(owner_slot(id.bytes@) =~= seq![b0, b1, b2, b3, b4, b5, b6, b7]);
    }
    r
}

/// The derived address of `(tag, identity)`: length byte, zero-padded tag,
/// stored owner in little-endian order.
pub open spec fn derived_address(tag: Seq<u8>, id: Seq<u8>) -> Seq<u8>
    recommends
        tag.len() <= MAX_TAG_LEN,
{
    seq![tag.len() as u8] + tag + Seq::new((MAX_TAG_LEN - tag.len()) as nat, |i: int| 0u8)
        + u64_le_bytes(truncated_owner(id))
}

/// Derives the deterministic address for `(tag, owner)`. Pure: no side
/// effects, and no failure beyond the rejection of an oversized tag.
pub fn derive(tag: &Vec<u8>, owner: &Identity) -> (r: Result<Vec<u8>, EngineError>)
    ensures
        tag@.len() <= MAX_TAG_LEN ==> r is Ok,
        r matches Ok(a) ==> tag@.len() <= MAX_TAG_LEN && a@ == derived_address(
            tag@,
            owner.bytes@,
        ),
        r matches Err(e) ==> tag@.len() > MAX_TAG_LEN && e == EngineError::MalformedAddressContext,
{
    if tag.len() > MAX_TAG_LEN {
        return Err(EngineError::MalformedAddressContext);
    }
    let mut a: Vec<u8> = Vec::new();
    a.push(tag.len() as u8);
    let mut i: usize = 0;
    while i < tag.len()
        invariant
            i <= tag@.len(),
            tag@.len() <= MAX_TAG_LEN,
            a@ == seq![tag@.len() as u8] + tag@.take(i as int),
        decreases tag@.len() - i,
    {
        a.push(tag[i]);
        proof {
            assert(seq![tag@.len() as u8] + tag@.take(i as int + 1) =~= (seq![tag@.len() as u8]
                + tag@.take(i as int)).push(tag@[i as int]));
        }
        i += 1;
    }
    proof {
        assert(tag@.take(tag@.len() as int) =~= tag@);
    }
    let mut j: usize = tag.len();
    while j < MAX_TAG_LEN
        invariant
            tag@.len() <= j <= MAX_TAG_LEN,
            a@ == seq![tag@.len() as u8] + tag@ + Seq::new((j - tag@.len()) as nat, |k: int| 0u8),
        decreases MAX_TAG_LEN - j,
    {
        a.push(0);
        proof {
            assert(seq![tag@.len() as u8] + tag@ + Seq::new(
                (j + 1 - tag@.len()) as nat,
                |k: int| 0u8,
            ) =~= (seq![tag@.len() as u8] + tag@ + Seq::new(
                (j - tag@.len()) as nat,
                |k: int| 0u8,
            )).push(0u8));
        }
        j += 1;
    }
    let word: u64 = truncate_identity(owner);
    let mut tail: Vec<u8> = u64_to_le(word);
    a.append(&mut tail);
    proof {
        assert(a@ =~= derived_address(tag@, owner.bytes@));
    }
    Ok(a)
}

/// Distinct stored owners never share an address under one namespace tag.
/// (Truncation is lossy: two distinct full identities that agree on their
/// low-order bytes store the same owner and do share an address.)
pub proof fn lemma_derive_distinct_owners(tag: Seq<u8>, a: Seq<u8>, b: Seq<u8>)
    requires
        tag.len() <= MAX_TAG_LEN,
        truncated_owner(a) != truncated_owner(b),
    ensures
        derived_address(tag, a) != derived_address(tag, b),
{
    let ta: u64 = truncated_owner(a);
    let tb: u64 = truncated_owner(b);
    let prefix = seq![tag.len() as u8] + tag + Seq::new((MAX_TAG_LEN - tag.len()) as nat, |i: int| 0u8);
    let da = derived_address(tag, a);
    let db = derived_address(tag, b);
    assert(prefix.len() == 1 + MAX_TAG_LEN);
    assert(da == prefix + u64_le_bytes(ta));
    assert(db == prefix + u64_le_bytes(tb));
    if da == db {
        assert forall|i: int| 0 <= i < 8 implies u64_le_bytes(ta)[i] == u64_le_bytes(tb)[i] by {
            assert(da[prefix.len() + i] == u64_le_bytes(ta)[i]);
            assert(db[prefix.len() + i] == u64_le_bytes(tb)[i]);
        }
        assert(u64_le_bytes(ta) =~= u64_le_bytes(tb));
        lemma_le_bytes_injective(ta, tb);
        assert(false);
    }
}

} // verus!
