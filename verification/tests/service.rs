use btc_anchoring::config::{AnchoringConfig, AnchoringNodeConfig};
use btc_anchoring::primitives::{Digest, Network, PublicKey};
use btc_anchoring::service::error::{commit_result, CommitReport, Error, RpcError, StorageError};
use btc_anchoring::service::handler::{
    AnchoringHandler, CommitAction, CommitContext, ProposalState, SkipReason,
};
use btc_anchoring::service::lect::{Lect, LectKind, Observation, ObservedTx};
use btc_anchoring::service::schema::{
    AnchoringSchema, AnchoringTransaction, TxAnchoringSignature, TxAnchoringUpdateLatest,
    ANCHORING_SERVICE,
};
use btc_anchoring::service::AnchoringService;
use btc_anchoring::transactions::{FundingTx, PrevOutput, PriorAnchor, ProposalError};
use btc_anchoring::wallet::MultisigAddress;

fn service_keys(count: usize) -> Vec<PublicKey> {
    (0..count).map(|k| PublicKey::new([k as u8 + 2; 33])).collect()
}

fn service_funding() -> FundingTx {
    FundingTx { id: Digest::new([9u8; 32]), index: 0, value: 10_000 }
}

fn service_config() -> AnchoringConfig {
    AnchoringConfig::new(service_keys(4), Network::Testnet, 1_000, 10, Some(service_funding()))
        .unwrap()
}

fn service_on(validator: u32) -> AnchoringService {
    AnchoringService::new(service_config(), AnchoringNodeConfig { validator })
}

fn quiet() -> Result<Observation, RpcError> {
    Ok(Observation { believed: Some(0), rival: None })
}

fn context(height: u64, prior: Option<PriorAnchor>, funding: Option<FundingTx>) -> CommitContext {
    CommitContext { height, state_digest: Digest::new([height as u8; 32]), seen: quiet(), prior, funding }
}

fn wallet_of(config: &AnchoringConfig) -> MultisigAddress {
    config.redeem_script().1
}

fn signature_for(txid: Digest, validator: u32, input: u32) -> AnchoringTransaction {
    AnchoringTransaction::Signature(TxAnchoringSignature {
        validator,
        proposal: txid,
        input,
        signature: vec![validator as u8, input as u8],
    })
}

#[test]
fn service_is_known_by_its_number() {
    let service = service_on(0);
    assert_eq!(service.service_id(), 3);
    assert_eq!(service.service_id(), ANCHORING_SERVICE);
}

#[test]
fn service_adds_nothing_to_the_state_digest() {
    assert!(service_on(0).state_hash().is_empty());
}

#[test]
fn new_service_has_no_proposal() {
    let service = service_on(2);
    assert_eq!(service.handler().node, AnchoringNodeConfig { validator: 2 });
    assert_eq!(service.handler().proposal, ProposalState::NoProposal);
    assert_eq!(service.genesis, service_config());
}

#[test]
fn genesis_block_imports_the_wallet_address() {
    let service = service_on(0);
    let (import, schema) = service.handle_genesis_block().unwrap();
    let address = wallet_of(&service_config());
    assert_eq!(import.address, address.to_base58check(Network::Testnet));
    assert!(import.address.starts_with('2'));
    assert_eq!(import.label, "multisig");
    assert!(!import.rescan);
    assert!(!import.p2sh);
    assert_eq!(schema.genesis, service_config());
    assert!(schema.signatures.is_empty());
    assert_eq!(
        schema.lects.current(),
        Lect { txid: Digest::new([9u8; 32]), kind: LectKind::Funding }
    );
    assert_eq!(schema.lects.announced, vec![None, None, None, None]);
}

#[test]
fn genesis_block_needs_a_funding_transaction() {
    let config = AnchoringConfig::new(service_keys(4), Network::Testnet, 1_000, 10, None).unwrap();
    let service = AnchoringService::new(config, AnchoringNodeConfig { validator: 0 });
    assert_eq!(service.handle_genesis_block().unwrap_err(), ProposalError::NoPriorAnchor);
    let config = AnchoringConfig::new(service_keys(4), Network::Testnet, 1_000, 10, None).unwrap();
    assert_eq!(
        AnchoringSchema::create_genesis_config(&config).unwrap_err(),
        ProposalError::NoPriorAnchor
    );
}

#[test]
fn network_failure_never_stops_the_commit() {
    let failure = Error::Rpc(RpcError { message: "unreachable".to_string() });
    assert_eq!(
        commit_result(Err(failure)),
        Ok(CommitReport::Skipped(RpcError { message: "unreachable".to_string() }))
    );
    assert_eq!(commit_result(Ok(())), Ok(CommitReport::Done));
}

#[test]
fn storage_failure_stops_the_commit() {
    let failure = Error::Storage(StorageError { message: "disk".to_string() });
    assert_eq!(commit_result(Err(failure)), Err(StorageError { message: "disk".to_string() }));
}

#[test]
fn transactions_of_validators_are_admitted() {
    let mut schema = AnchoringSchema::create_genesis_config(&service_config()).unwrap();
    let txid = Digest::new([5u8; 32]);
    let first = signature_for(txid, 3, 0);
    assert!(first.admissible(&schema));
    assert!(first.execute(&mut schema));
    let second = signature_for(txid, 1, 1);
    assert!(second.execute(&mut schema));
    assert_eq!(schema.signatures.len(), 2);
    assert_eq!(schema.signatures[0].validator(), 3);
    assert_eq!(schema.signatures[1].signature().clone(), vec![1u8, 1]);

    let stranger = signature_for(txid, 4, 0);
    assert!(!stranger.admissible(&schema));
    assert!(!stranger.execute(&mut schema));
    assert_eq!(schema.signatures.len(), 2);
}

#[test]
fn announcements_settle_the_belief_by_majority() {
    let mut schema = AnchoringSchema::create_genesis_config(&service_config()).unwrap();
    let initial = schema.lects.current();
    let next = Lect { txid: Digest::new([5u8; 32]), kind: LectKind::Broadcast };
    for validator in [0u32, 2] {
        let msg = AnchoringTransaction::UpdateLatest(TxAnchoringUpdateLatest { validator, lect: next });
        assert!(msg.execute(&mut schema));
        assert_eq!(schema.lects.current(), initial);
    }
    let stranger =
        AnchoringTransaction::UpdateLatest(TxAnchoringUpdateLatest { validator: 9, lect: next });
    assert!(!stranger.execute(&mut schema));
    assert_eq!(schema.lects.current(), initial);
    let msg =
        AnchoringTransaction::UpdateLatest(TxAnchoringUpdateLatest { validator: 3, lect: next });
    assert!(msg.execute(&mut schema));
    assert_eq!(schema.lects.current(), next);
    assert!(schema.signatures.is_empty());
}

#[test]
fn commit_skips_the_cycle_when_the_network_fails() {
    let mut service = service_on(1);
    let (_, schema) = service.handle_genesis_block().unwrap();
    let mut ctx = context(10, None, Some(service_funding()));
    ctx.seen = Err(RpcError { message: "timeout".to_string() });
    let action = service.handle_commit(&schema, ctx);
    assert_eq!(
        action,
        CommitAction::Skip(SkipReason::Network(RpcError { message: "timeout".to_string() }))
    );
    assert_eq!(service.handler().proposal, ProposalState::NoProposal);
}

#[test]
fn commit_announces_a_difference_before_anything_else() {
    let mut service = service_on(1);
    let (_, schema) = service.handle_genesis_block().unwrap();
    let mut ctx = context(10, None, Some(service_funding()));
    ctx.seen = Ok(Observation {
        believed: None,
        rival: Some(ObservedTx { txid: Digest::new([6u8; 32]), confirmations: 2 }),
    });
    let action = service.handle_commit(&schema, ctx);
    assert_eq!(
        action,
        CommitAction::AnnounceLect(TxAnchoringUpdateLatest {
            validator: 1,
            lect: Lect { txid: Digest::new([6u8; 32]), kind: LectKind::Confirmed },
        })
    );
    assert_eq!(service.handler().proposal, ProposalState::NoProposal);
}

#[test]
fn commit_proposes_an_anchor_at_the_interval() {
    let mut service = service_on(1);
    let (_, schema) = service.handle_genesis_block().unwrap();
    assert_eq!(
        service.handle_commit(&schema, context(7, None, Some(service_funding()))),
        CommitAction::Idle
    );
    let action = service.handle_commit(&schema, context(20, None, Some(service_funding())));
    match action {
        CommitAction::Propose(tx) => {
            assert_eq!(tx.spends, vec![service_funding().output()]);
            assert_eq!(tx.amount, 9_000);
            assert_eq!(tx.height, 20);
            assert_eq!(tx.state_digest, Digest::new([20u8; 32]));
            assert_eq!(tx.pays_to, wallet_of(&service_config()));
        }
        other => panic!("unexpected action: {:?}", other),
    }
    assert_eq!(service.handler().proposal, ProposalState::NoProposal);
}

#[test]
fn commit_reports_why_no_proposal_can_be_built() {
    let mut service = service_on(1);
    let (_, schema) = service.handle_genesis_block().unwrap();
    let prior = PriorAnchor {
        output: PrevOutput { txid: Digest::new([4u8; 32]), index: 0, value: 999 },
        pays_to: wallet_of(&service_config()),
    };
    assert_eq!(
        service.handle_commit(&schema, context(10, Some(prior), None)),
        CommitAction::Skip(SkipReason::Proposal(ProposalError::InsufficientFunds))
    );
    assert_eq!(
        service.handle_commit(&schema, context(11, None, None)),
        CommitAction::Skip(SkipReason::Proposal(ProposalError::TransitionPending))
    );
}

#[test]
fn commit_moves_the_funds_of_another_wallet() {
    let mut service = service_on(1);
    let (_, schema) = service.handle_genesis_block().unwrap();
    let output = PrevOutput { txid: Digest::new([4u8; 32]), index: 0, value: 3_000 };
    let prior = PriorAnchor { output, pays_to: MultisigAddress { script_hash: [1u8; 20] } };
    let action = service.handle_commit(&schema, context(13, Some(prior), Some(service_funding())));
    match action {
        CommitAction::Propose(tx) => {
            assert_eq!(tx.spends, vec![output]);
            assert_eq!(tx.amount, 2_000);
            assert_eq!(tx.pays_to, wallet_of(&service_config()));
            assert_eq!(tx.height, 13);
        }
        other => panic!("unexpected action: {:?}", other),
    }
}

#[test]
fn proposal_goes_from_pending_to_confirmed() {
    let mut service = service_on(2);
    let (_, mut schema) = service.handle_genesis_block().unwrap();
    let tx = match service.handle_commit(&schema, context(10, None, Some(service_funding()))) {
        CommitAction::Propose(tx) => tx,
        other => panic!("unexpected action: {:?}", other),
    };
    let txid = Digest::new([5u8; 32]);
    let mut handler = AnchoringHandler::new(AnchoringNodeConfig { validator: 2 });
    assert!(handler.proposal_created(tx.duplicate(), txid));
    assert!(!handler.proposal_created(tx.duplicate(), txid));
    assert!(!handler.broadcast_done());

    assert!(signature_for(txid, 0, 0).execute(&mut schema));
    assert!(signature_for(txid, 3, 0).execute(&mut schema));
    assert!(signature_for(Digest::new([6u8; 32]), 1, 0).execute(&mut schema));
    assert_eq!(handler.handle_commit(&schema, context(11, None, None)), CommitAction::Wait);
    assert_eq!(handler.proposal, ProposalState::Pending { tx: tx.duplicate(), txid });

    assert!(signature_for(txid, 1, 0).execute(&mut schema));
    match handler.handle_commit(&schema, context(12, None, None)) {
        CommitAction::Broadcast { signatures, announce } => {
            assert_eq!(signatures.len(), 1);
            assert_eq!(signatures[&0], vec![vec![0u8, 0], vec![1u8, 0], vec![3u8, 0]]);
            assert_eq!(
                announce,
                TxAnchoringUpdateLatest {
                    validator: 2,
                    lect: Lect { txid, kind: LectKind::Broadcast },
                }
            );
        }
        other => panic!("unexpected action: {:?}", other),
    }
    assert_eq!(handler.proposal, ProposalState::Finalized { tx: tx.duplicate(), txid });

    assert!(handler.broadcast_done());
    assert_eq!(handler.proposal, ProposalState::Broadcast { txid });
    assert_eq!(handler.handle_commit(&schema, context(20, None, None)), CommitAction::Idle);
    assert_eq!(handler.proposal, ProposalState::Broadcast { txid });

    let confirmed = Lect { txid, kind: LectKind::Confirmed };
    for validator in 0..3u32 {
        let msg = AnchoringTransaction::UpdateLatest(TxAnchoringUpdateLatest {
            validator,
            lect: confirmed,
        });
        assert!(msg.execute(&mut schema));
    }
    assert_eq!(schema.lects.current(), confirmed);
    let mut ctx = context(21, None, None);
    ctx.seen = Ok(Observation { believed: Some(1), rival: None });
    assert_eq!(
        handler.handle_commit(&schema, ctx),
        CommitAction::Skip(SkipReason::Proposal(ProposalError::TransitionPending))
    );
    assert_eq!(handler.proposal, ProposalState::Confirmed { txid });
}

#[test]
fn commit_context_is_held_to_the_money_that_exists() {
    let mut ctx = context(1, None, Some(service_funding()));
    assert!(ctx.is_valid());
    ctx.funding = Some(FundingTx { id: Digest::new([9u8; 32]), index: 0, value: u64::MAX });
    assert!(!ctx.is_valid());
}

#[test]
fn unverified_transactions_are_not_admitted() {
    let service = service_on(0);
    let (_, mut schema) = service.handle_genesis_block().unwrap();
    let txid = Digest::new([5u8; 32]);
    assert!(!service.dispatch(&signature_for(txid, 1, 0), false, &mut schema));
    assert!(schema.signatures.is_empty());
    assert!(service.dispatch(&signature_for(txid, 1, 0), true, &mut schema));
    assert_eq!(schema.signatures.len(), 1);
    assert!(!service.dispatch(&signature_for(txid, 4, 0), true, &mut schema));
    assert_eq!(schema.signatures.len(), 1);

    let next = Lect { txid, kind: LectKind::Broadcast };
    let initial = schema.lects.current();
    for validator in 0..4u32 {
        let msg = AnchoringTransaction::UpdateLatest(TxAnchoringUpdateLatest { validator, lect: next });
        assert!(!service.dispatch(&msg, false, &mut schema));
    }
    assert_eq!(schema.lects.current(), initial);
    assert_eq!(schema.lects.announced, vec![None, None, None, None]);
}
