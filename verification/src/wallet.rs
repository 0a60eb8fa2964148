//! Derivation of the shared multisignature wallet: the redeem script of the
//! validator set and the pay-to-script-hash address that stands for it.

use vstd::prelude::*;
use crate::primitives::{
    append_bytes, signature_views, BitcoinSignature, Network, PublicKey, PUBLIC_KEY_SIZE,
};

verus! {

/// The most keys that a redeem script holds: with one more, the script
/// passes the 520 bytes that Bitcoin allows a pay-to-script-hash script.
pub const MAX_KEYS: usize = 15;

/// The opcode before `OP_1`: `OP_n` is `OP_BASE + n` for `n` in 1..=16.
pub const OP_BASE: u8 = 0x50;

/// The opcode that pushes an empty element.
pub const OP_0: u8 = 0x00;

/// The opcode before a one-byte length and up to 255 bytes of data.
pub const OP_PUSHDATA1: u8 = 0x4c;

/// The opcode before a two-byte length and the data.
pub const OP_PUSHDATA2: u8 = 0x4d;

/// The longest element that a script may push.
pub const MAX_PUSH: usize = 520;

/// The opcode that checks a threshold of signatures against a key list.
pub const OP_CHECKMULTISIG: u8 = 0xae;

/// Length in bytes of a script hash.
pub const SCRIPT_HASH_SIZE: usize = 20;

/// The version byte of a pay-to-script-hash address on the main network.
pub const P2SH_VERSION_BITCOIN: u8 = 5;

/// The version byte of a pay-to-script-hash address on the test network.
pub const P2SH_VERSION_TESTNET: u8 = 196;

/// RIPEMD-160 of SHA-256 of `data`, as `bitcoin::hashes::hash160` computes it.
pub uninterp spec fn hash160(data: Seq<u8>) -> Seq<u8>;

/// The Base58Check text of `data`, as `bitcoin::base58::encode_check` writes it.
pub uninterp spec fn base58check(data: Seq<u8>) -> Seq<char>;

/// The byte strings of `keys`, in the same order.
pub open spec fn key_views(keys: Seq<PublicKey>) -> Seq<Seq<u8>> {
    Seq::new(keys.len(), |k: int| keys[k]@)
}

/// Whether `threshold` of `keys` make a multisignature wallet: between one
/// and `MAX_KEYS` compressed keys, and a threshold between one and their
/// number.
pub open spec fn multisig_allowed(keys: Seq<Seq<u8>>, threshold: nat) -> bool {
    &&& 1 <= threshold <= keys.len() <= MAX_KEYS
    &&& forall|k: int| 0 <= k < keys.len() ==> (#[trigger] keys[k]).len() == PUBLIC_KEY_SIZE
}

/// The script bytes that push `data` onto the stack, in the shortest form,
/// for data that a script may push: up to 75 bytes behind their length, up to
/// 255 behind `OP_PUSHDATA1` and their length, longer ones behind
/// `OP_PUSHDATA2` and their length in two bytes, the low one first.
pub open spec fn spec_push(data: Seq<u8>) -> Seq<u8> {
    if data.len() < OP_PUSHDATA1 {
        seq![data.len() as u8] + data
    } else if data.len() < 0x100 {
        seq![OP_PUSHDATA1, data.len() as u8] + data
    } else {
        seq![OP_PUSHDATA2, (data.len() % 0x100) as u8, (data.len() / 0x100) as u8] + data
    }
}

/// The script bytes that push each of `items` in order.
pub open spec fn spec_pushes(items: Seq<Seq<u8>>) -> Seq<u8>
    decreases items.len(),
{
    if items.len() == 0 {
        Seq::empty()
    } else {
        spec_pushes(items.drop_last()) + spec_push(items.last())
    }
}

/// Whether a script may push `data`: Bitcoin allows no element of more than
/// `MAX_PUSH` bytes.
pub open spec fn pushable(data: Seq<u8>) -> bool {
    data.len() <= MAX_PUSH
}

/// The script that spends an output of the wallet: an empty element, which
/// `OP_CHECKMULTISIG` takes off the stack beyond its arguments, then the
/// signatures in the order of their keys, then the redeem script itself.
pub open spec fn spec_input_script(signatures: Seq<Seq<u8>>, script: Seq<u8>) -> Seq<u8> {
    seq![OP_0] + spec_pushes(signatures) + spec_push(script)
}

/// The multisignature redeem script in its canonical form:
/// `OP_m <key 1> .. <key n> OP_n OP_CHECKMULTISIG`.
pub open spec fn spec_redeem_script(keys: Seq<Seq<u8>>, threshold: nat) -> Seq<u8> {
    seq![(OP_BASE + threshold) as u8] + spec_pushes(keys) + seq![
        (OP_BASE + keys.len()) as u8,
        OP_CHECKMULTISIG,
    ]
}

/// The script hash that the wallet's address stands for.
pub open spec fn spec_script_hash(keys: Seq<Seq<u8>>, threshold: nat) -> Seq<u8> {
    hash160(spec_redeem_script(keys, threshold))
}

/// The version byte of a pay-to-script-hash address on `network`.
pub open spec fn spec_p2sh_version(network: Network) -> u8 {
    match network {
        Network::Bitcoin => P2SH_VERSION_BITCOIN,
        Network::Testnet => P2SH_VERSION_TESTNET,
    }
}

/// The text of the address of `script_hash` on `network`.
pub open spec fn spec_address_text(script_hash: Seq<u8>, network: Network) -> Seq<char> {
    base58check(seq![spec_p2sh_version(network)] + script_hash)
}

/// The spending policy of the shared wallet, as script bytes.
#[derive(Debug, PartialEq, Eq)]
pub struct RedeemScript {
    pub bytes: Vec<u8>,
}

impl View for RedeemScript {
    type V = Seq<u8>;

    open spec fn view(&self) -> Seq<u8> {
        self.bytes@
    }
}

/// The address of the shared wallet: the hash of its redeem script.
#[derive(Clone, Copy, Debug, PartialEq, Eq)]
pub struct MultisigAddress {
    pub script_hash: [u8; 20],
}

impl View for MultisigAddress {
    type V = Seq<u8>;

    open spec fn view(&self) -> Seq<u8> {
        self.script_hash@
    }
}

impl MultisigAddress {
    /// Whether two addresses stand for the same script.
    pub fn same(&self, other: &MultisigAddress) -> (equal: bool)
        ensures
            equal == (self@ == other@),
    {
        let mut i: usize = 0;
        while i < SCRIPT_HASH_SIZE
            invariant
                i <= SCRIPT_HASH_SIZE,
                forall|j: int| 0 <= j < i ==> self.script_hash[j] == other.script_hash[j],
            decreases SCRIPT_HASH_SIZE - i,
        {
            if self.script_hash[i] != other.script_hash[i] {
                assert(self@[i as int] != other@[i as int]);
                return false;
            }
            i += 1;
        }
        assert(self@ =~= other@);
        true
    }

    /// The address as text, in Base58Check, on `network`.
    pub fn to_base58check(&self, network: Network) -> (text: String)
        ensures
            text@ == spec_address_text(self@, network),
    {
        let mut payload: Vec<u8> = Vec::new();
        payload.push(p2sh_version(network));
        append_bytes(&mut payload, self.script_hash.as_slice());
        encode_check(&payload)
    }
}

/// The version byte of a pay-to-script-hash address on `network`.
pub fn p2sh_version(network: Network) -> (version: u8)
    ensures
        version == spec_p2sh_version(network),
{
    match network {
        Network::Bitcoin => P2SH_VERSION_BITCOIN,
        Network::Testnet => P2SH_VERSION_TESTNET,
    }
}

/// `bitcoin::hashes::hash160::Hash::hash`, on plain bytes. The digest is what
/// the crate computes for these bytes; nothing more is claimed of it.
#[verifier::external_body]
fn hash160_digest(data: &Vec<u8>) -> (digest: [u8; 20])
    ensures
        digest@ == hash160(data@),
{
    let digest = <bitcoin::hashes::hash160::Hash as bitcoin::hashes::Hash>::hash(data.as_slice());
    <bitcoin::hashes::hash160::Hash as bitcoin::hashes::Hash>::to_byte_array(digest)
}

/// `bitcoin::base58::encode_check`, on plain bytes. The text is what the crate
/// writes for these bytes; nothing more is claimed of it.
#[verifier::external_body]
fn encode_check(data: &Vec<u8>) -> (text: String)
    ensures
        text@ == base58check(data@),
{
    bitcoin::base58::encode_check(data.as_slice())
}

/// Whether `threshold` of `keys` make a multisignature wallet.
pub fn is_multisig_allowed(keys: &Vec<PublicKey>, threshold: usize) -> (ok: bool)
    ensures
        ok == multisig_allowed(key_views(keys@), threshold as nat),
{
    1 <= threshold && threshold <= keys.len() && keys.len() <= MAX_KEYS
}

/// Appends to `buffer` the script bytes that push `data`.
pub fn push_data(buffer: &mut Vec<u8>, data: &[u8])
    requires
        pushable(data@),
    ensures
        final(buffer)@ == old(buffer)@ + spec_push(data@),
{
    let ghost start = buffer@;
    let len = data.len();
    if len < OP_PUSHDATA1 as usize {
        buffer.push(len as u8);
        append_bytes(buffer, data);
        assert(buffer@ == start + (seq![len as u8] + data@));
    } else if len < 0x100 {
        buffer.push(OP_PUSHDATA1);
        buffer.push(len as u8);
        append_bytes(buffer, data);
        assert(buffer@ == start + (seq![OP_PUSHDATA1, len as u8] + data@));
    } else {
        buffer.push(OP_PUSHDATA2);
        buffer.push((len % 0x100) as u8);
        buffer.push((len / 0x100) as u8);
        append_bytes(buffer, data);
        assert(buffer@ == start + (seq![
            OP_PUSHDATA2,
            (len % 0x100) as u8,
            (len / 0x100) as u8,
        ] + data@));
    }
}

/// Writes the canonical multisignature script for `threshold` of `keys`.
pub fn redeem_script(keys: &Vec<PublicKey>, threshold: usize) -> (script: RedeemScript)
    requires
        multisig_allowed(key_views(keys@), threshold as nat),
    ensures
        script@ == spec_redeem_script(key_views(keys@), threshold as nat),
{
    let ghost views = key_views(keys@);
    let mut bytes: Vec<u8> = Vec::new();
    bytes.push(OP_BASE + threshold as u8);
    let ghost head = bytes@;
    let mut k: usize = 0;
    while k < keys.len()
        invariant
            k <= keys@.len(),
            views == key_views(keys@),
            multisig_allowed(views, threshold as nat),
            bytes@ == head + spec_pushes(views.take(k as int)),
        decreases keys@.len() - k,
    {
        let key = keys[k].bytes.as_slice();
        assert(views[k as int] == key@);
        assert(views.take(k + 1).drop_last() == views.take(k as int));
        push_data(&mut bytes, key);
        assert(bytes@ == head + (spec_pushes(views.take(k as int)) + spec_push(key@)));
        k += 1;
    }
    assert(views.take(keys@.len() as int) == views);
    bytes.push(OP_BASE + keys.len() as u8);
    bytes.push(OP_CHECKMULTISIG);
    assert(bytes@ == head + spec_pushes(views) + seq![
        (OP_BASE + views.len()) as u8,
        OP_CHECKMULTISIG,
    ]);
    RedeemScript { bytes }
}

/// Whether a script may push every one of `signatures`.
fn all_pushable(signatures: &Vec<BitcoinSignature>) -> (ok: bool)
    ensures
        ok == forall|k: int|
            0 <= k < signatures@.len() ==> pushable(#[trigger] signature_views(signatures@)[k]),
{
    let mut k: usize = 0;
    while k < signatures.len()
        invariant
            k <= signatures@.len(),
            forall|j: int| 0 <= j < k ==> pushable(#[trigger] signature_views(signatures@)[j]),
        decreases signatures@.len() - k,
    {
        if signatures[k].len() > MAX_PUSH {
            assert(!pushable(signature_views(signatures@)[k as int]));
            return false;
        }
        k += 1;
    }
    true
}

/// Writes the script that spends an output of the wallet with `signatures`,
/// which stand in the order of their keys, and the redeem script `script`.
/// There is such a script exactly when no signature and no redeem script is
/// longer than a script may push.
pub fn input_script(signatures: &Vec<BitcoinSignature>, script: &RedeemScript) -> (bytes: Option<
    Vec<u8>,
>)
    ensures
        bytes is Some <==> pushable(script@) && forall|k: int|
            0 <= k < signatures@.len() ==> pushable(#[trigger] signature_views(signatures@)[k]),
        bytes matches Some(b) ==> b@ == spec_input_script(signature_views(signatures@), script@),
{
    if script.bytes.len() > MAX_PUSH || !all_pushable(signatures) {
        return None;
    }
    let ghost views = signature_views(signatures@);
    let mut bytes: Vec<u8> = Vec::new();
    bytes.push(OP_0);
    let ghost head = bytes@;
    let mut k: usize = 0;
    while k < signatures.len()
        invariant
            k <= signatures@.len(),
            views == signature_views(signatures@),
            forall|j: int| 0 <= j < signatures@.len() ==> pushable(#[trigger] views[j]),
            bytes@ == head + spec_pushes(views.take(k as int)),
        decreases signatures@.len() - k,
    {
        let signature = signatures[k].as_slice();
        assert(views[k as int] == signature@);
        assert(views.take(k + 1).drop_last() == views.take(k as int));
        push_data(&mut bytes, signature);
        assert(bytes@ == head + (spec_pushes(views.take(k as int)) + spec_push(signature@)));
        k += 1;
    }
    assert(views.take(signatures@.len() as int) == views);
    push_data(&mut bytes, script.bytes.as_slice());
    assert(bytes@ == head + spec_pushes(views) + spec_push(script@));
    Some(bytes)
}

/// The address of the wallet that `script` guards.
pub fn script_address(script: &RedeemScript) -> (address: MultisigAddress)
    ensures
        address@ == hash160(script@),
{
    MultisigAddress { script_hash: hash160_digest(&script.bytes) }
}

/// Derives the shared wallet of `threshold` of `keys`: its redeem script and
/// its address. There is a wallet exactly when `multisig_allowed` holds.
pub fn derive_wallet(keys: &Vec<PublicKey>, threshold: usize) -> (wallet: Option<
    (RedeemScript, MultisigAddress),
>)
    ensures
        wallet is Some <==> multisig_allowed(key_views(keys@), threshold as nat),
        wallet matches Some((script, address)) ==> {
            &&& script@ == spec_redeem_script(key_views(keys@), threshold as nat)
            &&& address@ == spec_script_hash(key_views(keys@), threshold as nat)
        },
{
    if is_multisig_allowed(keys, threshold) {
        let script = redeem_script(keys, threshold);
        let address = script_address(&script);
        Some((script, address))
    } else {
        None
    }
}

} // verus!
