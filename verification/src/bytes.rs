//! Little-endian encoding of 64-bit words, the base layer of the schema
//! registry and of the address deriver.

use vstd::prelude::*;

verus! {

/// The eight little-endian bytes of a 64-bit word, in storage order.
pub open spec fn u64_le_bytes(x: u64) -> Seq<u8> {
    seq![
        (x & 0xff) as u8,
        ((x >> 8u64) & 0xff) as u8,
        ((x >> 16u64) & 0xff) as u8,
        ((x >> 24u64) & 0xff) as u8,
        ((x >> 32u64) & 0xff) as u8,
        ((x >> 40u64) & 0xff) as u8,
        ((x >> 48u64) & 0xff) as u8,
        ((x >> 56u64) & 0xff) as u8,
    ]
}

/// The 64-bit word stored in eight little-endian bytes.
pub open spec fn le_word(b: Seq<u8>) -> u64
    recommends
        b.len() == 8,
{
    (b[0] as u64)
        | ((b[1] as u64) << 8u64)
        | ((b[2] as u64) << 16u64)
        | ((b[3] as u64) << 24u64)
        | ((b[4] as u64) << 32u64)
        | ((b[5] as u64) << 40u64)
        | ((b[6] as u64) << 48u64)
        | ((b[7] as u64) << 56u64)
}

/// Reading back the little-endian bytes of a word gives the word.
pub proof fn lemma_le_round_trip(x: u64)
    ensures
        le_word(u64_le_bytes(x)) == x,
{
    let b0: u8 = (x & 0xff) as u8;
    let b1: u8 = ((x >> 8u64) & 0xff) as u8;
    let b2: u8 = ((x >> 16u64) & 0xff) as u8;
    let b3: u8 = ((x >> 24u64) & 0xff) as u8;
    let b4: u8 = ((x >> 32u64) & 0xff) as u8;
    let b5: u8 = ((x >> 40u64) & 0xff) as u8;
    let b6: u8 = ((x >> 48u64) & 0xff) as u8;
    let b7: u8 = ((x >> 56u64) & 0xff) as u8;
    assert((b0 as u64)
        | ((b1 as u64) << 8u64)
        | ((b2 as u64) << 16u64)
        | ((b3 as u64) << 24u64)
        | ((b4 as u64) << 32u64)
        | ((b5 as u64) << 40u64)
        | ((b6 as u64) << 48u64)
        | ((b7 as u64) << 56u64) == x) by (bit_vector)
        requires
            b0 == (x & 0xff) as u8,
            b1 == ((x >> 8u64) & 0xff) as u8,
            b2 == ((x >> 16u64) & 0xff) as u8,
            b3 == ((x >> 24u64) & 0xff) as u8,
            b4 == ((x >> 32u64) & 0xff) as u8,
            b5 == ((x >> 40u64) & 0xff) as u8,
            b6 == ((x >> 48u64) & 0xff) as u8,
            b7 == ((x >> 56u64) & 0xff) as u8,
    ;
}

/// Two distinct words never share their little-endian bytes.
pub proof fn lemma_le_bytes_injective(x: u64, y: u64)
    requires
        u64_le_bytes(x) == u64_le_bytes(y),
    ensures
        x == y,
{
    lemma_le_round_trip(x);
    lemma_le_round_trip(y);
}

/// The eight little-endian bytes of `x`, as a fresh buffer.
pub fn u64_to_le(x: u64) -> (r: Vec<u8>)
    ensures
        r@ == u64_le_bytes(x),
{
    let mut r: Vec<u8> = Vec::new();
    r.push((x & 0xff) as u8);
    r.push(((x >> 8u64) & 0xff) as u8);
    r.push(((x >> 16u64) & 0xff) as u8);
    r.push(((x >> 24u64) & 0xff) as u8);
    r.push(((x >> 32u64) & 0xff) as u8);
    r.push(((x >> 40u64) & 0xff) as u8);
    r.push(((x >> 48u64) & 0xff) as u8);
    r.push(((x >> 56u64) & 0xff) as u8);
    proof {
        assert(r@ =~= u64_le_bytes(x));
    }
    r
}

/// The word stored in little-endian order at `b[start .. start + 8]`.
pub fn read_u64_le(b: &Vec<u8>, start: usize) -> (r: u64)
    requires
        start + 8 <= b@.len(),
    ensures
        r == le_word(b@.subrange(start as int, start as int + 8)),
{
    let n: usize = b.len();
    proof {
        assert(start + 8 <= n);
    }
    let r: u64 = (b[start] as u64)
        | ((b[start + 1] as u64) << 8u64)
        | ((b[start + 2] as u64) << 16u64)
        | ((b[start + 3] as u64) << 24u64)
        | ((b[start + 4] as u64) << 32u64)
        | ((b[start + 5] as u64) << 40u64)
        | ((b[start + 6] as u64) << 48u64)
        | ((b[start + 7] as u64) << 56u64);
    proof {
        let s = b@.subrange(start as int, start as int + 8);
        assert(s[0] == b@[start as int]);
        assert(s[1] == b@[start as int + 1]);
        assert(s[2] == b@[start as int + 2]);
        assert(s[3] == b@[start as int + 3]);
        assert(s[4] == b@[start as int + 4]);
        assert(s[5] == b@[start as int + 5]);
        assert(s[6] == b@[start as int + 6]);
        assert(s[7] == b@[start as int + 7]);
    }
    r
}

/// Byte-for-byte equality of two byte strings.
pub fn bytes_eq(a: &Vec<u8>, b: &Vec<u8>) -> (r: bool)
    ensures
        r <==> a@ == b@,
{
    if a.len() != b.len() {
        return false;
    }
    let mut i: usize = 0;
    while i < a.len()
        invariant
            0 <= i <= a@.len(),
            a@.len() == b@.len(),
            forall|j: int| 0 <= j < i ==> a@[j] == b@[j],
        decreases a@.len() - i,
    {
        if a[i] != b[i] {
            return false;
        }
        i += 1;
    }
    proof {
        assert(a@ =~= b@);
    }
    true
}

} // verus!
