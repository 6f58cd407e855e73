//! 32-byte identities (account addresses, campaign identifiers), held as four
//! 64-bit words so that equality is structural and the wire image is easy to
//! state.

use vstd::prelude::*;
use crate::wire::{u64_le_bytes, le8_at, push_u64_le, read_u64_le, lemma_le8_concat};

verus! {

/// A 32-byte identity. `bytes()` is its canonical little-endian image: the
/// word `w0` holds bytes 0..8 of the identity, `w1` bytes 8..16, and so on.
#[derive(Clone, Copy, PartialEq, Eq, Structural, Debug)]
pub struct Key {
    pub w0: u64,
    pub w1: u64,
    pub w2: u64,
    pub w3: u64,
}

impl Key {
    /// The 32 bytes this identity stands for.
    pub open spec fn bytes(self) -> Seq<u8> {
        u64_le_bytes(self.w0) + u64_le_bytes(self.w1) + u64_le_bytes(self.w2) + u64_le_bytes(
            self.w3,
        )
    }

    pub open spec fn spec_zero() -> Key {
        Key { w0: 0, w1: 0, w2: 0, w3: 0 }
    }

    /// The all-zero identity.
    pub fn zero() -> (r: Key)
        ensures
            r == Key::spec_zero(),
    {
        Key { w0: 0, w1: 0, w2: 0, w3: 0 }
    }

}

/// The identity whose 32 bytes are stored at offset `off`.
pub open spec fn key_at(s: Seq<u8>, off: int) -> Key
    recommends
        0 <= off,
        off + 32 <= s.len(),
{
    Key {
        w0: le8_at(s, off),
        w1: le8_at(s, off + 8),
        w2: le8_at(s, off + 16),
        w3: le8_at(s, off + 24),
    }
}

/// Reading 32 bytes just past a prefix recovers the identity written there.
pub proof fn lemma_key_concat(pre: Seq<u8>, k: Key, post: Seq<u8>)
    ensures
        key_at(pre + k.bytes() + post, pre.len() as int) == k,
{
    let s = pre + k.bytes() + post;
    let r1 = u64_le_bytes(k.w1) + u64_le_bytes(k.w2) + u64_le_bytes(k.w3) + post;
    assert(s =~= pre + u64_le_bytes(k.w0) + r1);
    lemma_le8_concat(pre, k.w0, r1);
    let p1 = pre + u64_le_bytes(k.w0);
    let r2 = u64_le_bytes(k.w2) + u64_le_bytes(k.w3) + post;
    assert(s =~= p1 + u64_le_bytes(k.w1) + r2);
    lemma_le8_concat(p1, k.w1, r2);
    let p2 = p1 + u64_le_bytes(k.w1);
    let r3 = u64_le_bytes(k.w3) + post;
    assert(s =~= p2 + u64_le_bytes(k.w2) + r3);
    lemma_le8_concat(p2, k.w2, r3);
    let p3 = p2 + u64_le_bytes(k.w2);
    assert(s =~= p3 + u64_le_bytes(k.w3) + post);
    lemma_le8_concat(p3, k.w3, post);
    assert(p1.len() == pre.len() + 8);
    assert(p2.len() == pre.len() + 16);
    assert(p3.len() == pre.len() + 24);
}

/// Appends the 32-byte image of `k` to `out`.
pub fn push_key(out: &mut Vec<u8>, k: &Key)
    ensures
        final(out)@ == old(out)@ + k.bytes(),
{
    push_u64_le(out, k.w0);
    push_u64_le(out, k.w1);
    push_u64_le(out, k.w2);
    push_u64_le(out, k.w3);
    assert(out@ =~= old(out)@ + k.bytes());
}

/// The 32-byte image of `k` on its own.
pub fn key_to_vec(k: &Key) -> (r: Vec<u8>)
    ensures
        r@ == k.bytes(),
{
    let mut out: Vec<u8> = Vec::new();
    push_key(&mut out, k);
    assert(out@ =~= k.bytes());
    out
}

/// Reads the identity stored at offset `off`.
pub fn read_key(data: &Vec<u8>, off: usize) -> (r: Key)
    requires
        off + 32 <= data.len(),
    ensures
        r == key_at(data@, off as int),
{
    Key {
        w0: read_u64_le(data, off),
        w1: read_u64_le(data, off + 8),
        w2: read_u64_le(data, off + 16),
        w3: read_u64_le(data, off + 24),
    }
}

/// Compares a byte string with the image of an identity.
pub fn bytes_eq_key(v: &Vec<u8>, k: &Key) -> (r: bool)
    ensures
        r == (v@ == k.bytes()),
{
    if v.len() != 32 {
        proof {
            assert(k.bytes().len() == 32);
        }
        return false;
    }
    let kb = key_to_vec(k);
    let mut i: usize = 0;
    while i < 32
        invariant
            0 <= i <= 32,
            v@.len() == 32,
            kb@ == k.bytes(),
            kb@.len() == 32,
            forall|j: int| 0 <= j < i ==> v@[j] == kb@[j],
        decreases 32 - i,
    {
        if v[i] != kb[i] {
            assert(v@ != k.bytes());
            return false;
        }
        i = i + 1;
    }
    assert(v@ =~= k.bytes());
    true
}

} // verus!
