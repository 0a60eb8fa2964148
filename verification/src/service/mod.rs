//! The anchoring service: collection of signatures and the boundary to the
//! host ledger.

pub mod schema;
pub mod error;
pub mod slots;
pub mod lect;
pub mod handler;

use vstd::prelude::*;
use std::collections::HashMap;
use crate::config::{AnchoringConfig, AnchoringNodeConfig};
use crate::primitives::{clone_bytes, signature_views, BitcoinSignature, Digest};
use crate::transactions::{AnchoringTx, ProposalError};
use crate::wallet::spec_address_text;
use self::handler::{spec_commit, AnchoringHandler, CommitAction, CommitContext, ProposalState};
use self::lect::{spec_announce, Lect, LectKind};
use self::schema::{
    contributions, AnchoringSchema, AnchoringTransaction, Contribution, TxAnchoringSignature,
    ANCHORING_SERVICE,
};
use self::slots::{
    at_most, collected, filled, input_complete, lemma_filled_step, outcome, placeable,
    relevant, slots, CollectedSignatures,
};

verus! {

/// The anchoring service of one node: the genesis configuration and the
/// node's engine.
#[derive(Debug, PartialEq, Eq)]
pub struct AnchoringService {
    pub genesis: AnchoringConfig,
    pub handler: AnchoringHandler,
}

/// The request to the Bitcoin node to watch an address.
#[derive(Debug, PartialEq, Eq)]
pub struct ImportAddress {
    /// The address, in Base58Check.
    pub address: String,
    /// The label under which the node files it.
    pub label: String,
    /// Whether the node is to scan the chain for earlier payments.
    pub rescan: bool,
    /// Whether the address stands for a script that the node is given.
    pub p2sh: bool,
}

impl AnchoringService {
    /// The configuration is valid, and so is the proposal under way.
    pub open spec fn wf(&self) -> bool {
        self.genesis.wf() && self.handler.wf()
    }

    /// The service of a node that starts from `genesis`, with no proposal
    /// under way.
    pub fn new(genesis: AnchoringConfig, cfg: AnchoringNodeConfig) -> (service: AnchoringService)
        ensures
            service.genesis == genesis,
            service.handler.node == cfg,
            service.handler.proposal == ProposalState::NoProposal,
            genesis.wf() ==> service.wf(),
    {
        AnchoringService { genesis, handler: AnchoringHandler::new(cfg) }
    }

    /// The engine of the node.
    pub fn handler(&self) -> (handler: &AnchoringHandler)
        ensures
            *handler == self.handler,
    {
        &self.handler
    }

    /// The number under which the host ledger knows the service.
    pub fn service_id(&self) -> (id: u16)
        ensures
            id == ANCHORING_SERVICE,
    {
        ANCHORING_SERVICE
    }

    /// What the service adds to the state digest of a block: nothing, since
    /// the anchors live in Bitcoin and not in the ledger's own state.
    pub fn state_hash(&self) -> (hashes: Vec<Digest>)
        ensures
            hashes@.len() == 0,
    {
        Vec::new()
    }

    /// Prepares the first block: derives the wallet of the genesis
    /// configuration, asks the Bitcoin node to watch its address under the
    /// label `multisig`, without a rescan, and records the configuration as
    /// the anchoring state. A genesis configuration without a funding
    /// transaction has nothing to start from.
    pub fn handle_genesis_block(&self) -> (start: Result<
        (ImportAddress, AnchoringSchema),
        ProposalError,
    >)
        requires
            self.genesis.wf(),
        ensures
            match start {
                Ok((import, schema)) => {
                    &&& self.genesis.funding_tx matches Some(funding)
                    &&& import.address@ == spec_address_text(
                        self.genesis.spec_address(),
                        self.genesis.network,
                    )
                    &&& import.label@ == "multisig"@
                    &&& !import.rescan
                    &&& !import.p2sh
                    &&& schema.wf()
                    &&& schema.genesis.validators@ == self.genesis.validators@
                    &&& schema.genesis.network == self.genesis.network
                    &&& schema.genesis.fee == self.genesis.fee
                    &&& schema.genesis.frequency == self.genesis.frequency
                    &&& schema.genesis.funding_tx == self.genesis.funding_tx
                    &&& schema.signatures@.len() == 0
                    &&& schema.lects.current == (Lect { txid: funding.id, kind: LectKind::Funding })
                    &&& forall|v: int|
                        0 <= v < schema.lects.announced@.len() ==> schema.lects.announced@[v] is None
                },
                Err(error) => self.genesis.funding_tx is None && error
                    == ProposalError::NoPriorAnchor,
            },
    {
        let (_, address) = self.genesis.redeem_script();
        let import = ImportAddress {
            address: address.to_base58check(self.genesis.network),
            label: "multisig".to_owned(),
            rescan: false,
            p2sh: false,
        };
        match AnchoringSchema::create_genesis_config(&self.genesis) {
            Ok(schema) => Ok((import, schema)),
            Err(error) => Err(error),
        }
    }

    /// Takes a protocol transaction from the ledger: it is admitted only if
    /// the sender's signature on it was verified, which `verified` reports,
    /// and if it comes from a validator of the set; an admitted transaction
    /// is taken into the state as `AnchoringTransaction::execute` says.
    /// Anything else leaves the state as it was.
    pub fn dispatch(
        &self,
        tx: &AnchoringTransaction,
        verified: bool,
        schema: &mut AnchoringSchema,
    ) -> (admitted: bool)
        requires
            old(schema).wf(),
        ensures
            final(schema).wf(),
            admitted == (verified && tx.spec_admissible(old(schema).genesis.validator_count())),
            final(schema).genesis == old(schema).genesis,
            !verified ==> *final(schema) == *old(schema),
            verified ==> match tx {
                AnchoringTransaction::Signature(msg) => {
                    &&& final(schema).lects == old(schema).lects
                    &&& contributions(final(schema).signatures@) == if admitted {
                        contributions(old(schema).signatures@).push(msg@)
                    } else {
                        contributions(old(schema).signatures@)
                    }
                },
                AnchoringTransaction::UpdateLatest(msg) => {
                    &&& final(schema).signatures == old(schema).signatures
                    &&& final(schema).lects@ == spec_announce(
                        old(schema).lects@,
                        msg.validator as nat,
                        msg.lect,
                        old(schema).genesis.spec_majority(),
                    )
                },
            },
    {
        if verified {
            tx.execute(schema)
        } else {
            false
        }
    }

    /// Decides what the node does after a block: see `spec_commit`.
    pub fn handle_commit(&mut self, schema: &AnchoringSchema, ctx: CommitContext) -> (action:
        CommitAction)
        requires
            old(self).handler.wf(),
            schema.wf(),
            ctx.wf(),
        ensures
            final(self).handler.wf(),
            final(self).genesis == old(self).genesis,
            final(self).handler.node == old(self).handler.node,
            spec_commit(
                old(self).handler.proposal,
                old(self).handler.node.validator,
                *schema,
                ctx,
                final(self).handler.proposal,
                action,
            ),
    {
        self.handler.handle_commit(schema, ctx)
    }
}

/// The signed inputs that a result of collection stands for.
pub open spec fn collected_view(result: Option<HashMap<u32, Vec<BitcoinSignature>>>) -> Option<
    CollectedSignatures,
> {
    match result {
        Some(signatures) => Some(
            Map::new(
                |input: nat| input <= u32::MAX && signatures@.contains_key(input as u32),
                |input: nat| signature_views(signatures@[input as u32]@),
            ),
        ),
        None => None,
    }
}

/// The slots that a row of the collector's table stands for.
pub open spec fn row_view(row: Seq<Option<BitcoinSignature>>) -> Seq<Option<Seq<u8>>> {
    Seq::new(
        row.len(),
        |v: int|
            match row[v] {
                Some(signature) => Some(signature@),
                None => None,
            },
    )
}

/// A row of `validators` empty slots.
fn empty_row(validators: usize) -> (row: Vec<Option<BitcoinSignature>>)
    ensures
        row@.len() == validators,
        forall|v: int| 0 <= v < validators ==> row@[v] is None,
{
    let mut row: Vec<Option<BitcoinSignature>> = Vec::new();
    let mut v: usize = 0;
    while v < validators
        invariant
            v <= validators,
            row@.len() == v,
            forall|w: int| 0 <= w < v ==> row@[w] is None,
        decreases validators - v,
    {
        row.push(None);
        v += 1;
    }
    row
}

/// The signatures of the filled slots of `row` in ascending order, cut off
/// at `limit`.
fn take_filled(row: &Vec<Option<BitcoinSignature>>, limit: usize) -> (signatures: Vec<
    BitcoinSignature,
>)
    ensures
        signature_views(signatures@) == at_most(filled(row_view(row@)), limit as nat),
{
    let ghost slots = row_view(row@);
    let mut signatures: Vec<BitcoinSignature> = Vec::new();
    let mut v: usize = 0;
    while v < row.len()
        invariant
            v <= row@.len(),
            slots == row_view(row@),
            signatures@.len() <= limit,
            signature_views(signatures@) == at_most(filled(slots.take(v as int)), limit as nat),
        decreases row@.len() - v,
    {
        proof {
            lemma_filled_step(slots, v as int);
        }
        if signatures.len() < limit {
            match &row[v] {
                Some(signature) => {
                    let copy = clone_bytes(signature);
                    let ghost before = signatures@;
                    signatures.push(copy);
                    assert(signature_views(signatures@) == signature_views(before).push(copy@));
                },
                None => {},
            }
        }
        v += 1;
    }
    assert(slots.take(row@.len() as int) == slots);
    signatures
}

/// Picks from `msgs` the contributions for the proposal `txid` that name one
/// of its `inputs` inputs and one of the `validators` validators, in the
/// order of their arrival.
pub fn select_contributions(
    msgs: &Vec<TxAnchoringSignature>,
    txid: &Digest,
    inputs: u32,
    validators: usize,
) -> (selected: Vec<TxAnchoringSignature>)
    ensures
        contributions(selected@) == relevant(
            contributions(msgs@),
            txid@,
            inputs as nat,
            validators as nat,
        ),
        forall|k: int|
            0 <= k < selected@.len() ==> placeable(
                #[trigger] selected@[k]@,
                inputs as nat,
                validators as nat,
            ),
{
    let ghost all = contributions(msgs@);
    let mut selected: Vec<TxAnchoringSignature> = Vec::new();
    let mut k: usize = 0;
    while k < msgs.len()
        invariant
            k <= msgs@.len(),
            all == contributions(msgs@),
            contributions(selected@) == relevant(
                all.take(k as int),
                txid@,
                inputs as nat,
                validators as nat,
            ),
            forall|j: int|
                0 <= j < selected@.len() ==> placeable(
                    #[trigger] selected@[j]@,
                    inputs as nat,
                    validators as nat,
                ),
        decreases msgs@.len() - k,
    {
        let msg = &msgs[k];
        assert(all.take(k + 1).drop_last() == all.take(k as int));
        assert(all.take(k + 1).last() == msg@);
        if msg.proposal.same(txid) && msg.input < inputs && (msg.validator as usize) < validators {
            let ghost before = selected@;
            selected.push(msg.duplicate());
            assert(contributions(selected@) =~= contributions(before).push(msg@));
        }
        k += 1;
    }
    assert(all.take(msgs@.len() as int) == all);
    selected
}

/// Collects the signatures of `proposal` from the contributions `msgs`.
///
/// Every input gets one slot per validator; each contribution overwrites the
/// slot that it names, so the last one for a slot counts. An input is
/// complete when at least a majority of its slots are filled. The result is
/// `None` until every input is complete; then it maps each input to the
/// signatures of its first majority of filled slots, in ascending order of
/// validator.
pub fn collect_signatures(
    proposal: &AnchoringTx,
    genesis: &AnchoringConfig,
    msgs: &[TxAnchoringSignature],
) -> (result: Option<HashMap<u32, Vec<BitcoinSignature>>>)
    requires
        proposal.wf(),
        forall|k: int|
            0 <= k < msgs@.len() ==> placeable(
                #[trigger] msgs@[k]@,
                proposal.input_count(),
                genesis.validator_count(),
            ),
    ensures
        collected_view(result) == outcome(
            contributions(msgs@),
            proposal.input_count(),
            genesis.validator_count(),
            genesis.spec_majority(),
        ),
{
    let validators = genesis.validators.len();
    let inputs = proposal.inputs();
    let ghost all = contributions(msgs@);

    let mut table: Vec<Vec<Option<BitcoinSignature>>> = Vec::new();
    let mut input: u32 = 0;
    while input < inputs.end
        invariant
            input <= inputs.end,
            table@.len() == input,
            forall|i: int|
                0 <= i < input ==> row_view(#[trigger] table@[i]@) == slots(
                    Seq::<Contribution>::empty(),
                    i as nat,
                    validators as nat,
                ),
        decreases inputs.end - input,
    {
        let row = empty_row(validators);
        assert(row_view(row@) == slots(
            Seq::<Contribution>::empty(),
            input as nat,
            validators as nat,
        ));
        table.push(row);
        input += 1;
    }

    let mut k: usize = 0;
    while k < msgs.len()
        invariant
            k <= msgs@.len(),
            all == contributions(msgs@),
            validators == genesis.validator_count(),
            inputs.end == proposal.input_count(),
            table@.len() == inputs.end,
            forall|j: int|
                0 <= j < msgs@.len() ==> placeable(
                    #[trigger] msgs@[j]@,
                    proposal.input_count(),
                    genesis.validator_count(),
                ),
            forall|i: int|
                0 <= i < inputs.end ==> row_view(#[trigger] table@[i]@) == slots(
                    all.take(k as int),
                    i as nat,
                    validators as nat,
                ),
        decreases msgs@.len() - k,
    {
        let msg = &msgs[k];
        assert(placeable(msgs@[k as int]@, proposal.input_count(), genesis.validator_count()));
        let ghost before = table@;
        let signature = clone_bytes(msg.signature());
        table[msg.input() as usize][msg.validator() as usize] = Some(signature);
        proof {
            let now = all.take(k + 1);
            assert(now.drop_last() == all.take(k as int));
            assert(now.last() == msgs@[k as int]@);
            assert forall|i: int| 0 <= i < inputs.end implies row_view(#[trigger] table@[i]@)
                == slots(now, i as nat, validators as nat) by {
                assert(row_view(before[i]@) == slots(
                    all.take(k as int),
                    i as nat,
                    validators as nat,
                ));
                assert forall|v: int| 0 <= v < validators implies row_view(table@[i]@)[v] == slots(
                    now,
                    i as nat,
                    validators as nat,
                )[v] by {
                    assert(row_view(before[i]@)[v] == slots(
                        all.take(k as int),
                        i as nat,
                        validators as nat,
                    )[v]);
                }
            }
        }
        k += 1;
    }
    assert(all.take(msgs@.len() as int) == all);

    let majority = genesis.majority_count();
    let mut actual: HashMap<u32, Vec<BitcoinSignature>> = HashMap::new();
    let mut input: u32 = 0;
    while input < inputs.end
        invariant
            input <= inputs.end,
            all == contributions(msgs@),
            inputs.end == proposal.input_count(),
            validators == genesis.validator_count(),
            majority == genesis.spec_majority(),
            table@.len() == inputs.end,
            forall|i: int|
                0 <= i < inputs.end ==> row_view(#[trigger] table@[i]@) == slots(
                    all,
                    i as nat,
                    validators as nat,
                ),
            forall|i: nat| i < input ==> input_complete(all, i, validators as nat, majority as nat),
            forall|i: u32| actual@.contains_key(i) <==> i < input,
            forall|i: u32|
                i < input ==> signature_views(#[trigger] actual@[i]@) == collected(
                    all,
                    i as nat,
                    validators as nat,
                    majority as nat,
                ),
        decreases inputs.end - input,
    {
        let signatures = take_filled(&table[input as usize], majority);
        assert(row_view(table@[input as int]@) == slots(all, input as nat, validators as nat));
        assert(signature_views(signatures@).len() == signatures@.len());
        if signatures.len() < majority {
            assert(!input_complete(all, input as nat, validators as nat, majority as nat));
            return None;
        }
        actual.insert(input, signatures);
        input += 1;
    }
    proof {
        assert forall|i: nat| i < inputs.end implies input_complete(
            all,
            i,
            validators as nat,
            majority as nat,
        ) by {}
        assert(collected_view(Some(actual))->0 =~= outcome(
            all,
            inputs.end as nat,
            validators as nat,
            majority as nat,
        )->0);
    }
    Some(actual)
}

} // verus!
