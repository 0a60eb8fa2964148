//! The per-block driver: what a node does when the ledger commits a block.

use vstd::prelude::*;
use std::collections::HashMap;
use crate::config::AnchoringNodeConfig;
use crate::primitives::{BitcoinSignature, Digest};
use crate::transactions::{
    build_proposal, build_transfer, spec_funds, spec_prior_output, spec_proposal_error,
    spec_spends, spec_transition, transition_state, AnchoringTx, FundingTx, PriorAnchor,
    ProposalError, TransitionState,
};
use super::error::RpcError;
use super::lect::{spec_reconcile, Lect, LectKind, Observation};
use super::schema::{contributions, AnchoringSchema, TxAnchoringUpdateLatest};
use super::slots::{outcome, relevant};
use super::{collect_signatures, collected_view, select_contributions};

verus! {

/// The life of a proposal on one node.
#[derive(Debug, PartialEq, Eq)]
pub enum ProposalState {
    /// No proposal is under way.
    NoProposal,
    /// A proposal waits for signatures.
    Pending { tx: AnchoringTx, txid: Digest },
    /// Every input of the proposal has its signatures.
    Finalized { tx: AnchoringTx, txid: Digest },
    /// The signed transaction is on the network.
    Broadcast { txid: Digest },
    /// The validators agree that a block holds the transaction.
    Confirmed { txid: Digest },
}

/// What a node knows when a block is committed.
#[derive(Debug, PartialEq, Eq)]
pub struct CommitContext {
    /// The height of the committed block.
    pub height: u64,
    /// The digest of the ledger state at that height.
    pub state_digest: Digest,
    /// What the Bitcoin network shows, or why it could not be asked.
    pub seen: Result<Observation, RpcError>,
    /// The spendable output of the believed anchor, if it has one.
    pub prior: Option<PriorAnchor>,
    /// The output of the funding transaction, as long as it is unspent.
    pub funding: Option<FundingTx>,
}

impl CommitContext {
    /// The outputs hold no more than can exist.
    pub open spec fn wf(&self) -> bool {
        &&& self.prior matches Some(prior) ==> prior.output.wf()
        &&& self.funding matches Some(funding) ==> funding.wf()
    }

    /// Whether the outputs hold no more than can exist.
    pub fn is_valid(&self) -> (ok: bool)
        ensures
            ok == self.wf(),
    {
        let prior_ok = match self.prior {
            Some(prior) => prior.output.is_valid(),
            None => true,
        };
        let funding_ok = match self.funding {
            Some(funding) => funding.is_valid(),
            None => true,
        };
        prior_ok && funding_ok
    }
}

/// Why a cycle was given up. The next block tries again.
#[derive(Debug, PartialEq, Eq)]
pub enum SkipReason {
    /// The Bitcoin network could not be asked.
    Network(RpcError),
    /// No proposal could be built.
    Proposal(ProposalError),
}

/// What the node is to do after a block.
#[derive(Debug, PartialEq, Eq)]
pub enum CommitAction {
    /// Nothing is due.
    Idle,
    /// The cycle is given up, for the reason named.
    Skip(SkipReason),
    /// The network differs from the belief: send this announcement through
    /// consensus. Nothing else happens in this cycle.
    AnnounceLect(TxAnchoringUpdateLatest),
    /// A new anchor is due: sign this proposal and send the signatures.
    Propose(AnchoringTx),
    /// The proposal lacks signatures: keep waiting.
    Wait,
    /// The proposal is complete: broadcast it with these signatures, then
    /// send the announcement through consensus.
    Broadcast { signatures: HashMap<u32, Vec<BitcoinSignature>>, announce: TxAnchoringUpdateLatest },
}

/// The rule that applies after a block.
pub enum Plan {
    /// The network could not be asked.
    SkipNetwork,
    /// The network differs from the belief.
    Announce(Lect),
    /// Nothing is due.
    Idle,
    /// An anchor is due.
    Build,
    /// The funds sit in another wallet and are to be moved.
    Transfer,
    /// The wallet has nothing to spend.
    Paused,
    /// A proposal is under way: this one, under this id.
    Collect { tx: AnchoringTx, txid: Digest },
}

/// Whether an anchor is due at `height`: at every multiple of `frequency`.
pub open spec fn spec_anchor_due(height: u64, frequency: u64) -> bool {
    (height as int) % (frequency as int) == 0
}

/// The proposal state once the agreed belief is taken into account: a
/// broadcast transaction that the validators agree to be confirmed is
/// confirmed.
pub open spec fn spec_settled(state: ProposalState, current: Lect) -> ProposalState {
    match state {
        ProposalState::Broadcast { txid } => if current == (Lect {
            txid,
            kind: LectKind::Confirmed,
        }) {
            ProposalState::Confirmed { txid }
        } else {
            state
        },
        _ => state,
    }
}

/// The rule that applies: an unreachable network ends the cycle; a
/// difference between network and belief is announced before anything else;
/// without a proposal under way, one is built when the wallet is to be moved
/// or when the height is a multiple of `frequency`; with one under way,
/// signatures are collected.
pub open spec fn spec_plan(
    state: ProposalState,
    current: Lect,
    frequency: u64,
    wallet: Seq<u8>,
    ctx: CommitContext,
) -> Plan {
    match ctx.seen {
        Err(_) => Plan::SkipNetwork,
        Ok(seen) => match spec_reconcile(current, seen) {
            Some(update) => Plan::Announce(update),
            None => match spec_settled(state, current) {
                ProposalState::Pending { tx, txid } => Plan::Collect { tx, txid },
                ProposalState::Finalized { tx, txid } => Plan::Collect { tx, txid },
                ProposalState::Broadcast { .. } => Plan::Idle,
                ProposalState::NoProposal | ProposalState::Confirmed { .. } => match spec_transition(
                    wallet,
                    ctx.prior,
                    ctx.funding,
                ) {
                    TransitionState::Transferring => Plan::Transfer,
                    TransitionState::AwaitingFunding => Plan::Paused,
                    TransitionState::Stable => if spec_anchor_due(ctx.height, frequency) {
                        Plan::Build
                    } else {
                        Plan::Idle
                    },
                },
            },
        },
    }
}

/// What a commit does with the proposal `tx`, which Bitcoin knows as `txid`:
/// of the contributions in the state, those for this proposal that name one
/// of its inputs and a validator of the set are collected. If they complete
/// every input, the proposal is finalized, and the action carries the
/// signatures and the announcement of the transaction as broadcast; if not,
/// the proposal is pending, and the node waits.
pub open spec fn spec_collect(
    tx: AnchoringTx,
    txid: Digest,
    validator: u32,
    schema: AnchoringSchema,
    after: ProposalState,
    action: CommitAction,
) -> bool {
    let collected = outcome(
        relevant(
            contributions(schema.signatures@),
            txid@,
            tx.input_count(),
            schema.genesis.validator_count(),
        ),
        tx.input_count(),
        schema.genesis.validator_count(),
        schema.genesis.spec_majority(),
    );
    match collected {
        Some(_) => {
            &&& action matches CommitAction::Broadcast { signatures, announce }
            &&& collected_view(Some(signatures)) == collected
            &&& announce.validator == validator
            &&& announce.lect == (Lect { txid, kind: LectKind::Broadcast })
            &&& after == (ProposalState::Finalized { tx, txid })
        },
        None => {
            &&& action is Wait
            &&& after == (ProposalState::Pending { tx, txid })
        },
    }
}

/// What a commit does, rule by rule: `before` and `after` are the states of
/// the proposal, `validator` is the node's place in the validator set.
///
/// Where an anchor is due, the proposal spends the believed anchor's output
/// and the funding output and pays into the wallet of the configuration in
/// force; where the funds sit in another wallet, the proposal moves them into
/// that wallet. Where a proposal is under way, `spec_collect` says the rest.
pub open spec fn spec_commit(
    before: ProposalState,
    validator: u32,
    schema: AnchoringSchema,
    ctx: CommitContext,
    after: ProposalState,
    action: CommitAction,
) -> bool {
    match spec_plan(
        before,
        schema.lects.current,
        schema.genesis.frequency,
        schema.genesis.spec_address(),
        ctx,
    ) {
        Plan::SkipNetwork => {
            &&& action matches CommitAction::Skip(SkipReason::Network(e))
            &&& ctx.seen == Err::<Observation, RpcError>(e)
            &&& after == before
        },
        Plan::Announce(update) => {
            &&& action matches CommitAction::AnnounceLect(msg)
            &&& msg.validator == validator
            &&& msg.lect == update
            &&& after == before
        },
        Plan::Idle => {
            &&& action is Idle
            &&& after == spec_settled(before, schema.lects.current)
        },
        Plan::Paused => {
            &&& action matches CommitAction::Skip(SkipReason::Proposal(e))
            &&& e == ProposalError::TransitionPending
            &&& after == spec_settled(before, schema.lects.current)
        },
        Plan::Build => {
            &&& after == spec_settled(before, schema.lects.current)
            &&& match spec_proposal_error(
                schema.genesis.fee,
                spec_prior_output(ctx.prior),
                ctx.funding,
                TransitionState::Stable,
            ) {
                Some(error) => action matches CommitAction::Skip(SkipReason::Proposal(e))
                    && e == error,
                None => {
                    &&& action matches CommitAction::Propose(tx)
                    &&& tx.wf()
                    &&& tx.spends@ == spec_spends(spec_prior_output(ctx.prior), ctx.funding)
                    &&& tx.pays_to@ == schema.genesis.spec_address()
                    &&& tx.amount == spec_funds(spec_prior_output(ctx.prior), ctx.funding)
                        - schema.genesis.fee
                    &&& tx.height == ctx.height
                    &&& tx.state_digest == ctx.state_digest
                },
            }
        },
        Plan::Transfer => {
            &&& after == spec_settled(before, schema.lects.current)
            &&& ctx.prior matches Some(anchor)
            &&& if anchor.output.value < schema.genesis.fee {
                action matches CommitAction::Skip(SkipReason::Proposal(e)) && e
                    == ProposalError::InsufficientFunds
            } else {
                &&& action matches CommitAction::Propose(tx)
                &&& tx.wf()
                &&& tx.spends@ == seq![anchor.output]
                &&& tx.pays_to@ == schema.genesis.spec_address()
                &&& tx.amount == anchor.output.value - schema.genesis.fee
                &&& tx.height == ctx.height
                &&& tx.state_digest == ctx.state_digest
            }
        },
        Plan::Collect { tx, txid } => spec_collect(tx, txid, validator, schema, after, action),
    }
}

/// The engine of one node: who it is, and where its proposal stands.
#[derive(Debug, PartialEq, Eq)]
pub struct AnchoringHandler {
    pub node: AnchoringNodeConfig,
    pub proposal: ProposalState,
}

impl ProposalState {
    /// A proposal under way has input numbers that fit 32 bits.
    pub open spec fn wf(&self) -> bool {
        match self {
            ProposalState::Pending { tx, .. } => tx.wf(),
            ProposalState::Finalized { tx, .. } => tx.wf(),
            _ => true,
        }
    }
}

impl AnchoringHandler {
    /// The proposal under way, if there is one, is well formed.
    pub open spec fn wf(&self) -> bool {
        self.proposal.wf()
    }

    /// Whether the proposal under way, if there is one, is well formed.
    pub fn is_valid(&self) -> (ok: bool)
        ensures
            ok == self.wf(),
    {
        match &self.proposal {
            ProposalState::Pending { tx, .. } => tx.is_valid(),
            ProposalState::Finalized { tx, .. } => tx.is_valid(),
            _ => true,
        }
    }

    /// The engine of a node that has no proposal under way.
    pub fn new(cfg: AnchoringNodeConfig) -> (handler: AnchoringHandler)
        ensures
            handler.node == cfg,
            handler.proposal == ProposalState::NoProposal,
            handler.wf(),
    {
        AnchoringHandler { node: cfg, proposal: ProposalState::NoProposal }
    }

    /// Takes up `tx`, which Bitcoin knows as `txid`, as the proposal under
    /// way, and says whether it did: it does so if none is under way and the
    /// inputs of `tx` can be numbered with 32 bits.
    pub fn proposal_created(&mut self, tx: AnchoringTx, txid: Digest) -> (taken: bool)
        requires
            old(self).wf(),
        ensures
            final(self).wf(),
            final(self).node == old(self).node,
            taken == ((old(self).proposal is NoProposal || old(self).proposal is Confirmed)
                && tx.wf()),
            final(self).proposal == if taken {
                ProposalState::Pending { tx, txid }
            } else {
                old(self).proposal
            },
    {
        let free = match &self.proposal {
            ProposalState::NoProposal => true,
            ProposalState::Confirmed { .. } => true,
            _ => false,
        };
        if free && tx.spends.len() <= u32::MAX as usize {
            self.proposal = ProposalState::Pending { tx, txid };
            true
        } else {
            false
        }
    }

    /// Notes that the network took the signed transaction, and says whether
    /// a finalized proposal was there to note it of.
    pub fn broadcast_done(&mut self) -> (noted: bool)
        requires
            old(self).wf(),
        ensures
            final(self).wf(),
            final(self).node == old(self).node,
            noted == (old(self).proposal is Finalized),
            final(self).proposal == match old(self).proposal {
                ProposalState::Finalized { tx, txid } => ProposalState::Broadcast { txid },
                other => other,
            },
    {
        let mut taken = ProposalState::NoProposal;
        std::mem::swap(&mut self.proposal, &mut taken);
        match taken {
            ProposalState::Finalized { tx, txid } => {
                self.proposal = ProposalState::Broadcast { txid };
                true
            },
            other => {
                self.proposal = other;
                false
            },
        }
    }

    /// Decides what the node does after a block, by the rules of
    /// `spec_commit`. The state of the proposal changes only when its
    /// signatures are collected, and when a broadcast transaction is agreed
    /// to be confirmed.
    pub fn handle_commit(&mut self, schema: &AnchoringSchema, ctx: CommitContext) -> (action:
        CommitAction)
        requires
            old(self).wf(),
            schema.wf(),
            ctx.wf(),
        ensures
            final(self).wf(),
            final(self).node == old(self).node,
            spec_commit(
                old(self).proposal,
                old(self).node.validator,
                *schema,
                ctx,
                final(self).proposal,
                action,
            ),
    {
        let CommitContext { height, state_digest, seen, prior, funding } = ctx;
        let seen = match seen {
            Err(e) => {
                return CommitAction::Skip(SkipReason::Network(e));
            },
            Ok(seen) => seen,
        };
        match schema.lects.reconcile(&seen) {
            Some(update) => {
                return CommitAction::AnnounceLect(
                    TxAnchoringUpdateLatest { validator: self.node.validator, lect: update },
                );
            },
            None => {},
        }
        let current = schema.lects.current();
        let mut state = ProposalState::NoProposal;
        std::mem::swap(&mut self.proposal, &mut state);
        match state {
            ProposalState::Pending { tx, txid } => self.collect(schema, tx, txid),
            ProposalState::Finalized { tx, txid } => self.collect(schema, tx, txid),
            ProposalState::Broadcast { txid } => {
                let confirmed = Lect { txid, kind: LectKind::Confirmed };
                if current.same(&confirmed) {
                    self.proposal = ProposalState::Confirmed { txid };
                    self.start(schema, height, state_digest, prior, funding)
                } else {
                    self.proposal = ProposalState::Broadcast { txid };
                    CommitAction::Idle
                }
            },
            other => {
                self.proposal = other;
                self.start(schema, height, state_digest, prior, funding)
            },
        }
    }

    /// Collects the signatures for the proposal `tx`, and finalizes it if
    /// they are complete.
    fn collect(&mut self, schema: &AnchoringSchema, tx: AnchoringTx, txid: Digest) -> (action:
        CommitAction)
        requires
            tx.wf(),
            schema.wf(),
        ensures
            final(self).node == old(self).node,
            final(self).wf(),
            spec_collect(
                tx,
                txid,
                old(self).node.validator,
                *schema,
                final(self).proposal,
                action,
            ),
    {
        let inputs = tx.inputs();
        let selected = select_contributions(
            &schema.signatures,
            &txid,
            inputs.end,
            schema.genesis.validators.len(),
        );
        match collect_signatures(&tx, &schema.genesis, selected.as_slice()) {
            Some(signatures) => {
                self.proposal = ProposalState::Finalized { tx, txid };
                CommitAction::Broadcast {
                    signatures,
                    announce: TxAnchoringUpdateLatest {
                        validator: self.node.validator,
                        lect: Lect { txid, kind: LectKind::Broadcast },
                    },
                }
            },
            None => {
                self.proposal = ProposalState::Pending { tx, txid };
                CommitAction::Wait
            },
        }
    }

    /// Builds the proposal that is due, if one is.
    fn start(
        &self,
        schema: &AnchoringSchema,
        height: u64,
        state_digest: Digest,
        prior: Option<PriorAnchor>,
        funding: Option<FundingTx>,
    ) -> (action: CommitAction)
        requires
            schema.wf(),
            prior matches Some(anchor) ==> anchor.output.wf(),
            funding matches Some(tx) ==> tx.wf(),
        ensures
            match spec_transition(schema.genesis.spec_address(), prior, funding) {
                TransitionState::AwaitingFunding => action matches CommitAction::Skip(
                    SkipReason::Proposal(e),
                ) && e == ProposalError::TransitionPending,
                TransitionState::Transferring => {
                    &&& prior matches Some(anchor)
                    &&& if anchor.output.value < schema.genesis.fee {
                        action matches CommitAction::Skip(SkipReason::Proposal(e)) && e
                            == ProposalError::InsufficientFunds
                    } else {
                        &&& action matches CommitAction::Propose(tx)
                        &&& tx.wf()
                        &&& tx.spends@ == seq![anchor.output]
                        &&& tx.pays_to@ == schema.genesis.spec_address()
                        &&& tx.amount == anchor.output.value - schema.genesis.fee
                        &&& tx.height == height
                        &&& tx.state_digest == state_digest
                    }
                },
                TransitionState::Stable => if spec_anchor_due(height, schema.genesis.frequency) {
                    match spec_proposal_error(
                        schema.genesis.fee,
                        spec_prior_output(prior),
                        funding,
                        TransitionState::Stable,
                    ) {
                        Some(error) => action matches CommitAction::Skip(SkipReason::Proposal(e))
                            && e == error,
                        None => {
                            &&& action matches CommitAction::Propose(tx)
                            &&& tx.wf()
                            &&& tx.spends@ == spec_spends(spec_prior_output(prior), funding)
                            &&& tx.pays_to@ == schema.genesis.spec_address()
                            &&& tx.amount == spec_funds(spec_prior_output(prior), funding)
                                - schema.genesis.fee
                            &&& tx.height == height
                            &&& tx.state_digest == state_digest
                        },
                    }
                } else {
                    action is Idle
                },
            },
    {
        let (_, wallet) = schema.genesis.redeem_script();
        let output = match prior {
            Some(anchor) => Some(anchor.output),
            None => None,
        };
        let built = match transition_state(&wallet, prior, funding) {
            TransitionState::Stable => {
                if height % schema.genesis.frequency != 0 {
                    return CommitAction::Idle;
                }
                build_proposal(
                    &schema.genesis,
                    output,
                    funding,
                    height,
                    state_digest,
                    TransitionState::Stable,
                )
            },
            TransitionState::Transferring => match output {
                Some(output) => build_transfer(&schema.genesis, output, height, state_digest),
                None => Err(ProposalError::TransitionPending),
            },
            TransitionState::AwaitingFunding => build_proposal(
                &schema.genesis,
                output,
                funding,
                height,
                state_digest,
                TransitionState::AwaitingFunding,
            ),
        };
        match built {
            Ok(tx) => CommitAction::Propose(tx),
            Err(e) => CommitAction::Skip(SkipReason::Proposal(e)),
        }
    }
}

} // verus!
