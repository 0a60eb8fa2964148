//! Plain values that the protocol passes around: digests, keys, signatures.

use vstd::prelude::*;

verus! {

/// A signature over one input of a Bitcoin transaction, as raw bytes.
pub type BitcoinSignature = Vec<u8>;

/// Length in bytes of a digest.
pub const DIGEST_SIZE: usize = 32;

/// Length in bytes of a compressed secp256k1 public key.
pub const PUBLIC_KEY_SIZE: usize = 33;

/// A 32-byte digest: a Bitcoin transaction id or a ledger state digest.
#[derive(Clone, Copy, Debug, PartialEq, Eq)]
pub struct Digest {
    pub bytes: [u8; 32],
}

impl View for Digest {
    type V = Seq<u8>;

    open spec fn view(&self) -> Seq<u8> {
        self.bytes@
    }
}

impl Digest {
    /// Wraps the bytes of a digest.
    pub fn new(bytes: [u8; 32]) -> (digest: Digest)
        ensures
            digest@ == bytes@,
            digest.bytes == bytes,
    {
        Digest { bytes }
    }

    /// Whether two digests hold the same bytes.
    pub fn same(&self, other: &Digest) -> (equal: bool)
        ensures
            equal == (self@ == other@),
            equal == (*self == *other),
    {
        let mut i: usize = 0;
        while i < DIGEST_SIZE
            invariant
                i <= DIGEST_SIZE,
                forall|j: int| 0 <= j < i ==> self.bytes[j] == other.bytes[j],
            decreases DIGEST_SIZE - i,
        {
            if self.bytes[i] != other.bytes[i] {
                assert(self@[i as int] != other@[i as int]);
                return false;
            }
            i += 1;
        }
        assert(self.bytes =~= other.bytes);
        true
    }
}

/// The Bitcoin public key of a validator, in compressed form.
#[derive(Clone, Copy, Debug, PartialEq, Eq)]
pub struct PublicKey {
    pub bytes: [u8; 33],
}

impl View for PublicKey {
    type V = Seq<u8>;

    open spec fn view(&self) -> Seq<u8> {
        self.bytes@
    }
}

impl PublicKey {
    /// Wraps the bytes of a compressed key.
    pub fn new(bytes: [u8; 33]) -> (key: PublicKey)
        ensures
            key@ == bytes@,
            key.bytes == bytes,
    {
        PublicKey { bytes }
    }
}

/// The Bitcoin network that a wallet lives on.
#[derive(Clone, Copy, Debug, PartialEq, Eq, Structural)]
pub enum Network {
    Bitcoin,
    Testnet,
}

/// The byte strings of `signatures`, in the same order.
pub open spec fn signature_views(signatures: Seq<BitcoinSignature>) -> Seq<Seq<u8>> {
    Seq::new(signatures.len(), |k: int| signatures[k]@)
}

/// A copy of `bytes`.
pub fn clone_bytes(bytes: &Vec<u8>) -> (copy: Vec<u8>)
    ensures
        copy@ == bytes@,
{
    let mut copy: Vec<u8> = Vec::with_capacity(bytes.len());
    let mut i: usize = 0;
    while i < bytes.len()
        invariant
            i <= bytes@.len(),
            copy@ == bytes@.take(i as int),
        decreases bytes@.len() - i,
    {
        copy.push(bytes[i]);
        i += 1;
    }
    copy
}

/// Appends `bytes` to `buffer`.
pub fn append_bytes(buffer: &mut Vec<u8>, bytes: &[u8])
    ensures
        final(buffer)@ == old(buffer)@ + bytes@,
{
    let ghost start = buffer@;
    let mut j: usize = 0;
    while j < bytes.len()
        invariant
            j <= bytes@.len(),
            buffer@ == start + bytes@.take(j as int),
        decreases bytes@.len() - j,
    {
        buffer.push(bytes[j]);
        assert(bytes@.take(j + 1) == bytes@.take(j as int).push(bytes@[j as int]));
        j += 1;
    }
    assert(bytes@.take(bytes@.len() as int) == bytes@);
}

} // verus!
