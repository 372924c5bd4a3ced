//! Long-term peer identity keys and small byte-vector helpers.

use vstd::prelude::*;

verus! {

/// Number of bytes in a peer's long-term static public key.
pub const KEY_LEN: usize = 32;

/// A peer's long-term identity public key: an opaque fixed-size value,
/// equality-comparable byte for byte and usable as a mapping key.
#[derive(Debug, PartialEq, Eq)]
pub struct PeerStaticKey {
    bytes: Vec<u8>,
}

impl View for PeerStaticKey {
    type V = Seq<u8>;

    closed spec fn view(&self) -> Seq<u8> {
        self.bytes@
    }
}

impl PeerStaticKey {
    /// Whether the value is a well-formed key of exactly `KEY_LEN` bytes.
    pub open spec fn wf(&self) -> bool {
        self@.len() == KEY_LEN
    }

    /// Builds a key from exactly `KEY_LEN` bytes; any other length is rejected.
    pub fn from_bytes(bytes: Vec<u8>) -> (r: Option<PeerStaticKey>)
        ensures
            match r {
                Some(k) => k@ == bytes@ && k.wf(),
                None => bytes@.len() != KEY_LEN,
            },
    {
        if bytes.len() == KEY_LEN {
            Some(PeerStaticKey { bytes })
        } else {
            None
        }
    }

    /// Wraps bytes already known to be exactly `KEY_LEN` long.
    pub fn from_exact(bytes: Vec<u8>) -> (r: PeerStaticKey)
        requires
            bytes@.len() == KEY_LEN,
        ensures
            r@ == bytes@,
            r.wf(),
    {
        PeerStaticKey { bytes }
    }

    /// An independent copy of the key.
    pub fn duplicate(&self) -> (r: PeerStaticKey)
        ensures
            r@ == self@,
    {
        PeerStaticKey { bytes: copy_bytes(&self.bytes) }
    }

    /// Byte-for-byte equality of two keys.
    pub fn eq_key(&self, other: &PeerStaticKey) -> (r: bool)
        ensures
            r == (self@ == other@),
    {
        bytes_eq(&self.bytes, &other.bytes)
    }

    /// The key bytes.
    pub fn as_bytes(&self) -> (r: &Vec<u8>)
        ensures
            r@ == self@,
    {
        &self.bytes
    }
}

/// An independent copy of a byte vector.
pub fn copy_bytes(src: &Vec<u8>) -> (r: Vec<u8>)
    ensures
        r@ == src@,
{
    let mut out: Vec<u8> = Vec::new();
    let mut i: usize = 0;
    while i < src.len()
        invariant
            i <= src@.len(),
            out@ == src@.subrange(0, i as int),
        decreases src@.len() - i,
    {
        out.push(src[i]);
        proof {
            assert(src@.subrange(0, i as int).push(src@[i as int]) =~= src@.subrange(
                0,
                i + 1 as int,
            ));
        }
        i = i + 1;
    }
    proof {
        assert(out@ =~= src@);
    }
    out
}

/// Byte-for-byte equality of two byte vectors.
pub fn bytes_eq(a: &Vec<u8>, b: &Vec<u8>) -> (r: bool)
    ensures
        r == (a@ == b@),
{
    if a.len() != b.len() {
        return false;
    }
    let mut i: usize = 0;
    while i < a.len()
        invariant
            i <= a@.len(),
            a@.len() == b@.len(),
            forall|j: int| 0 <= j < i ==> a@[j] == b@[j],
        decreases a@.len() - i,
    {
        if a[i] != b[i] {
            return false;
        }
        i = i + 1;
    }
    proof {
        assert(a@ =~= b@);
    }
    true
}

} // verus!
