use bitcoin::blockdata::opcodes::all::OP_CHECKMULTISIG;
use bitcoin::blockdata::script::{Builder, PushBytesBuf, ScriptBuf};
use btc_anchoring::config::AnchoringConfig;
use btc_anchoring::primitives::{Network, PublicKey};
use btc_anchoring::wallet::{
    derive_wallet, input_script, is_multisig_allowed, p2sh_version, push_data, redeem_script,
    script_address, MultisigAddress, RedeemScript,
};

fn wallet_keys(count: usize) -> Vec<PublicKey> {
    let mut keys = Vec::new();
    for k in 0..count {
        let mut bytes = [0u8; 33];
        bytes[0] = if k % 2 == 0 { 2 } else { 3 };
        for (j, byte) in bytes.iter_mut().enumerate().skip(1) {
            *byte = (k * 31 + j * 7) as u8;
        }
        keys.push(PublicKey::new(bytes));
    }
    keys
}

fn reference_script(keys: &[PublicKey], threshold: usize) -> ScriptBuf {
    let mut builder = Builder::new().push_int(threshold as i64);
    for key in keys {
        builder = builder.push_slice(key.bytes);
    }
    builder.push_int(keys.len() as i64).push_opcode(OP_CHECKMULTISIG).into_script()
}

#[test]
fn redeem_script_has_the_canonical_bytes() {
    let keys = wallet_keys(2);
    let script = redeem_script(&keys, 2);
    let mut expected = vec![0x52u8, 33];
    expected.extend_from_slice(&keys[0].bytes);
    expected.push(33);
    expected.extend_from_slice(&keys[1].bytes);
    expected.push(0x52);
    expected.push(0xae);
    assert_eq!(script.bytes, expected);
    assert_eq!(script.bytes.len(), 71);
}

#[test]
fn redeem_script_is_the_script_that_bitcoin_builds() {
    for count in 1..=15usize {
        let keys = wallet_keys(count);
        let threshold = count * 2 / 3 + 1;
        let script = redeem_script(&keys, threshold);
        assert_eq!(script.bytes, reference_script(&keys, threshold).into_bytes());
    }
}

#[test]
fn address_is_the_pay_to_script_hash_address_of_bitcoin() {
    let keys = wallet_keys(4);
    let (script, address) = derive_wallet(&keys, 3).unwrap();
    let reference = reference_script(&keys, 3);
    assert_eq!(script.bytes, reference.clone().into_bytes());

    let main = bitcoin::Address::p2sh(&reference, bitcoin::Network::Bitcoin).unwrap();
    let test = bitcoin::Address::p2sh(&reference, bitcoin::Network::Testnet).unwrap();
    assert_eq!(address.to_base58check(Network::Bitcoin), main.to_string());
    assert_eq!(address.to_base58check(Network::Testnet), test.to_string());
    assert!(address.to_base58check(Network::Bitcoin).starts_with('3'));
    assert!(address.to_base58check(Network::Testnet).starts_with('2'));
}

#[test]
fn script_hash_is_hash160_of_the_script() {
    let keys = wallet_keys(3);
    let script = redeem_script(&keys, 3);
    let address = script_address(&script);
    let reference = reference_script(&keys, 3);
    assert_eq!(address.script_hash.to_vec(), reference.script_hash()[..].to_vec());
    assert_ne!(address.script_hash.to_vec(), script.bytes);
}

#[test]
fn address_text_decodes_to_version_and_script_hash() {
    let address = MultisigAddress { script_hash: [0x11u8; 20] };
    let text = address.to_base58check(Network::Bitcoin);
    let decoded = bitcoin::base58::decode_check(&text).unwrap();
    let mut expected = vec![5u8];
    expected.extend_from_slice(&[0x11u8; 20]);
    assert_eq!(decoded, expected);

    let text = address.to_base58check(Network::Testnet);
    let decoded = bitcoin::base58::decode_check(&text).unwrap();
    assert_eq!(decoded[0], 196);
    assert_eq!(decoded[1..].to_vec(), vec![0x11u8; 20]);
}

#[test]
fn address_text_of_the_zero_hash_is_known() {
    let address = MultisigAddress { script_hash: [0u8; 20] };
    assert_eq!(address.to_base58check(Network::Bitcoin), "31h1vYVSYuKP6AhS86fbRdMw9XHieotbST");
}

#[test]
fn version_bytes_are_those_of_the_networks() {
    assert_eq!(p2sh_version(Network::Bitcoin), 5);
    assert_eq!(p2sh_version(Network::Testnet), 196);
}

#[test]
fn no_wallet_without_keys_or_with_too_many() {
    assert!(derive_wallet(&wallet_keys(0), 0).is_none());
    assert!(derive_wallet(&wallet_keys(0), 1).is_none());
    assert!(derive_wallet(&wallet_keys(16), 11).is_none());
    assert!(derive_wallet(&wallet_keys(15), 11).is_some());
    assert!(derive_wallet(&wallet_keys(1), 1).is_some());
}

#[test]
fn no_wallet_with_a_threshold_out_of_range() {
    assert!(derive_wallet(&wallet_keys(3), 0).is_none());
    assert!(derive_wallet(&wallet_keys(3), 4).is_none());
    assert!(derive_wallet(&wallet_keys(3), 1).is_some());
    assert!(is_multisig_allowed(&wallet_keys(3), 3));
    assert!(!is_multisig_allowed(&wallet_keys(3), 4));
}

#[test]
fn wallet_depends_on_validators_and_threshold_alone() {
    let first =
        AnchoringConfig::new(wallet_keys(4), Network::Bitcoin, 1_000, 10, None).unwrap();
    let second =
        AnchoringConfig::new(wallet_keys(4), Network::Testnet, 55_000, 1, None).unwrap();
    let (script_a, address_a) = first.redeem_script();
    let (script_b, address_b) = second.redeem_script();
    let (script_c, address_c) = first.redeem_script();
    assert_eq!(script_a.bytes, script_b.bytes);
    assert_eq!(address_a.script_hash, address_b.script_hash);
    assert_eq!(script_a.bytes, script_c.bytes);
    assert_eq!(address_a.script_hash, address_c.script_hash);
    assert!(address_a.same(&address_b));
    assert_eq!(
        address_a.to_base58check(Network::Testnet),
        address_b.to_base58check(Network::Testnet)
    );
}

#[test]
fn wallet_changes_with_the_order_of_the_validators() {
    let keys = wallet_keys(3);
    let swapped = vec![keys[1], keys[0], keys[2]];
    let (script_a, address_a) = derive_wallet(&keys, 3).unwrap();
    let (script_b, address_b) = derive_wallet(&swapped, 3).unwrap();
    assert_ne!(script_a.bytes, script_b.bytes);
    assert!(!address_a.same(&address_b));
}

#[test]
fn configuration_needs_validators_and_a_frequency() {
    assert!(AnchoringConfig::new(wallet_keys(0), Network::Bitcoin, 1, 1, None).is_none());
    assert!(AnchoringConfig::new(wallet_keys(16), Network::Bitcoin, 1, 1, None).is_none());
    assert!(AnchoringConfig::new(wallet_keys(4), Network::Bitcoin, 1, 0, None).is_none());
    let config = AnchoringConfig::new(wallet_keys(4), Network::Bitcoin, 1, 1, None).unwrap();
    let copy = config.duplicate();
    assert_eq!(copy.validators.len(), 4);
    assert_eq!(copy.validators[3].bytes, config.validators[3].bytes);
    assert_eq!(copy.fee, 1);
    assert_eq!(copy.frequency, 1);
}

fn reference_input_script(signatures: &[Vec<u8>], script: &[u8]) -> Vec<u8> {
    let mut builder = Builder::new().push_opcode(bitcoin::blockdata::opcodes::OP_0);
    for signature in signatures {
        builder = builder.push_slice(PushBytesBuf::try_from(signature.clone()).unwrap());
    }
    builder.push_slice(PushBytesBuf::try_from(script.to_vec()).unwrap()).into_script().into_bytes()
}

#[test]
fn input_script_has_the_expected_bytes() {
    let script = RedeemScript { bytes: vec![0x51] };
    let bytes = input_script(&vec![vec![0xaa], vec![0xbb, 0xcc]], &script).unwrap();
    assert_eq!(bytes, vec![0x00, 0x01, 0xaa, 0x02, 0xbb, 0xcc, 0x01, 0x51]);
    let bytes = input_script(&Vec::new(), &script).unwrap();
    assert_eq!(bytes, vec![0x00, 0x01, 0x51]);
}

#[test]
fn input_script_is_the_script_that_bitcoin_builds() {
    let signatures = vec![vec![0x30u8; 71], vec![0x31u8; 72], vec![0x32u8; 73]];
    for count in [1usize, 2, 4, 7, 8, 15] {
        let keys = wallet_keys(count);
        let script = redeem_script(&keys, count * 2 / 3 + 1);
        let bytes = input_script(&signatures, &script).unwrap();
        assert_eq!(bytes, reference_input_script(&signatures, &script.bytes));
    }
}

#[test]
fn pushes_take_the_shortest_form() {
    for len in [0usize, 1, 75, 76, 255, 256, 513, 520] {
        let data = vec![0x5au8; len];
        let mut buffer = vec![0xffu8];
        push_data(&mut buffer, &data);
        let reference = Builder::new()
            .push_slice(PushBytesBuf::try_from(data.clone()).unwrap())
            .into_script()
            .into_bytes();
        assert_eq!(buffer[0], 0xff);
        assert_eq!(buffer[1..].to_vec(), reference);
    }
    let mut buffer = Vec::new();
    push_data(&mut buffer, &[0x5au8; 513]);
    assert_eq!(buffer[..3].to_vec(), vec![0x4d, 0x01, 0x02]);
    let mut buffer = Vec::new();
    push_data(&mut buffer, &[0x5au8; 76]);
    assert_eq!(buffer[..2].to_vec(), vec![0x4c, 76]);
}

#[test]
fn input_script_refuses_what_no_script_may_push() {
    let script = RedeemScript { bytes: vec![0x51] };
    assert!(input_script(&vec![vec![1u8; 520]], &script).is_some());
    assert!(input_script(&vec![vec![1u8; 70], vec![1u8; 521]], &script).is_none());
    let long = RedeemScript { bytes: vec![0x51; 521] };
    assert!(input_script(&vec![vec![1u8; 70]], &long).is_none());
}
