//! Anchoring transactions as the protocol sees them, and how the next one is
//! built.

use vstd::prelude::*;
use crate::config::AnchoringConfig;
use crate::primitives::Digest;
use crate::wallet::MultisigAddress;

verus! {

/// The most satoshis that can exist, and so the most that an output holds.
pub const MAX_MONEY: u64 = 2_100_000_000_000_000;

/// An output of an earlier transaction that belongs to the shared wallet.
#[derive(Clone, Copy, Debug, PartialEq, Eq)]
pub struct PrevOutput {
    pub txid: Digest,
    pub index: u32,
    pub value: u64,
}

impl PrevOutput {
    /// The output holds no more than can exist.
    pub open spec fn wf(&self) -> bool {
        self.value <= MAX_MONEY
    }

    /// Whether the output holds no more than can exist.
    pub fn is_valid(&self) -> (ok: bool)
        ensures
            ok == self.wf(),
    {
        self.value <= MAX_MONEY
    }
}

/// A transaction from outside that seeds the wallet: `index` names its output
/// that pays into the wallet, `value` what that output holds.
#[derive(Clone, Copy, Debug, PartialEq, Eq)]
pub struct FundingTx {
    pub id: Digest,
    pub index: u32,
    pub value: u64,
}

impl FundingTx {
    /// The output holds no more than can exist.
    pub open spec fn wf(&self) -> bool {
        self.value <= MAX_MONEY
    }

    /// Whether the output holds no more than can exist.
    pub fn is_valid(&self) -> (ok: bool)
        ensures
            ok == self.wf(),
    {
        self.value <= MAX_MONEY
    }

    /// The output of the funding transaction that the wallet can spend.
    pub open spec fn spec_output(&self) -> PrevOutput {
        PrevOutput { txid: self.id, index: self.index, value: self.value }
    }

    /// The output of the funding transaction that the wallet can spend.
    pub fn output(&self) -> (output: PrevOutput)
        ensures
            output == self.spec_output(),
    {
        PrevOutput { txid: self.id, index: self.index, value: self.value }
    }
}

/// An unsigned anchoring transaction: it spends outputs of the shared wallet,
/// pays what is left after the fee into a wallet, and commits to a ledger
/// height and state digest. Each of its inputs needs a signature set of its
/// own.
#[derive(Debug, PartialEq, Eq)]
pub struct AnchoringTx {
    /// The outputs that the inputs spend, in the order of the inputs.
    pub spends: Vec<PrevOutput>,
    /// The wallet that receives the funds.
    pub pays_to: MultisigAddress,
    /// What the wallet receives, in satoshis.
    pub amount: u64,
    /// The ledger height that the transaction anchors.
    pub height: u64,
    /// The digest of the ledger state at that height.
    pub state_digest: Digest,
}

/// Why no proposal can be built.
#[derive(Clone, Copy, Debug, PartialEq, Eq, Structural)]
pub enum ProposalError {
    /// The outputs to spend hold less than the fee.
    InsufficientFunds,
    /// There is neither an earlier anchor nor a funding transaction to spend.
    NoPriorAnchor,
    /// The wallet is moving to a new validator set: anchoring pauses.
    TransitionPending,
}

/// Where the move of the funds to a new validator set stands.
#[derive(Clone, Copy, Debug, PartialEq, Eq, Structural)]
pub enum TransitionState {
    /// The wallet of the configuration in force holds the funds.
    Stable,
    /// The funds are on their way from the old wallet to the new one.
    Transferring,
    /// The new wallet has nothing to spend until it is funded from outside.
    AwaitingFunding,
}

/// The output of the believed anchor that the wallet can spend next, and the
/// wallet that it sits in.
#[derive(Clone, Copy, Debug, PartialEq, Eq)]
pub struct PriorAnchor {
    pub output: PrevOutput,
    pub pays_to: MultisigAddress,
}

/// Where the funds stand with respect to the wallet `wallet` of the
/// configuration in force: in it, in another wallet, or nowhere yet.
pub open spec fn spec_transition(
    wallet: Seq<u8>,
    prior: Option<PriorAnchor>,
    funding: Option<FundingTx>,
) -> TransitionState {
    match prior {
        Some(anchor) => if anchor.pays_to@ == wallet {
            TransitionState::Stable
        } else {
            TransitionState::Transferring
        },
        None => if funding is Some {
            TransitionState::Stable
        } else {
            TransitionState::AwaitingFunding
        },
    }
}

/// The output of the believed anchor, without its wallet.
pub open spec fn spec_prior_output(prior: Option<PriorAnchor>) -> Option<PrevOutput> {
    match prior {
        Some(anchor) => Some(anchor.output),
        None => None,
    }
}

/// Decides where the funds stand with respect to `wallet`, the wallet of the
/// configuration in force: whether they have moved into it, and whether it
/// must be funded from outside before anchoring can go on.
pub fn transition_state(
    wallet: &MultisigAddress,
    prior: Option<PriorAnchor>,
    funding: Option<FundingTx>,
) -> (state: TransitionState)
    ensures
        state == spec_transition(wallet@, prior, funding),
{
    match prior {
        Some(anchor) => if anchor.pays_to.same(wallet) {
            TransitionState::Stable
        } else {
            TransitionState::Transferring
        },
        None => if funding.is_some() {
            TransitionState::Stable
        } else {
            TransitionState::AwaitingFunding
        },
    }
}

/// The outputs that a proposal spends: the earlier anchor's first, then the
/// funding transaction's.
pub open spec fn spec_spends(prior: Option<PrevOutput>, funding: Option<FundingTx>) -> Seq<
    PrevOutput,
> {
    let first = match prior {
        Some(output) => seq![output],
        None => Seq::empty(),
    };
    match funding {
        Some(tx) => first.push(tx.spec_output()),
        None => first,
    }
}

/// What the outputs to spend hold together.
pub open spec fn spec_funds(prior: Option<PrevOutput>, funding: Option<FundingTx>) -> nat {
    let first: nat = match prior {
        Some(output) => output.value as nat,
        None => 0,
    };
    let second: nat = match funding {
        Some(tx) => tx.value as nat,
        None => 0,
    };
    first + second
}

/// Why a proposal cannot be built from these inputs, if it cannot: a move of
/// the wallet comes first, then the lack of anything to spend, then the lack
/// of funds for the fee.
pub open spec fn spec_proposal_error(
    fee: u64,
    prior: Option<PrevOutput>,
    funding: Option<FundingTx>,
    transition: TransitionState,
) -> Option<ProposalError> {
    if transition != TransitionState::Stable {
        Some(ProposalError::TransitionPending)
    } else if prior is None && funding is None {
        Some(ProposalError::NoPriorAnchor)
    } else if spec_funds(prior, funding) < fee {
        Some(ProposalError::InsufficientFunds)
    } else {
        None
    }
}

impl AnchoringTx {
    /// The number of inputs, which are numbered from zero.
    pub open spec fn input_count(&self) -> nat {
        self.spends@.len()
    }

    /// The input numbers fit the 32 bits that a contribution names them with.
    pub open spec fn wf(&self) -> bool {
        self.spends@.len() <= u32::MAX
    }

    /// Whether the input numbers fit 32 bits.
    pub fn is_valid(&self) -> (ok: bool)
        ensures
            ok == self.wf(),
    {
        self.spends.len() <= u32::MAX as usize
    }

    /// The input numbers of the transaction: `0..n`.
    pub fn inputs(&self) -> (range: std::ops::Range<u32>)
        requires
            self.wf(),
        ensures
            range.start == 0,
            range.end == self.input_count(),
    {
        0..(self.spends.len() as u32)
    }

    /// A copy of the transaction.
    pub fn duplicate(&self) -> (copy: AnchoringTx)
        ensures
            copy.spends@ == self.spends@,
            copy.pays_to == self.pays_to,
            copy.amount == self.amount,
            copy.height == self.height,
            copy.state_digest == self.state_digest,
    {
        let mut spends: Vec<PrevOutput> = Vec::new();
        let mut k: usize = 0;
        while k < self.spends.len()
            invariant
                k <= self.spends@.len(),
                spends@ == self.spends@.take(k as int),
            decreases self.spends@.len() - k,
        {
            spends.push(self.spends[k]);
            k += 1;
        }
        assert(self.spends@.take(self.spends@.len() as int) == self.spends@);
        AnchoringTx {
            spends,
            pays_to: self.pays_to,
            amount: self.amount,
            height: self.height,
            state_digest: self.state_digest,
        }
    }
}

/// Builds the next anchoring transaction of the epoch of `config`.
///
/// It spends `prior`, the output of the latest anchor, and `funding`, the
/// output of a funding transaction, as far as they are there; it pays all
/// they hold but the fee into the wallet of `config`, and commits to `height`
/// and `state_digest`. There is no proposal while the wallet is in
/// transition, without anything to spend, or without funds for the fee.
pub fn build_proposal(
    config: &AnchoringConfig,
    prior: Option<PrevOutput>,
    funding: Option<FundingTx>,
    height: u64,
    state_digest: Digest,
    transition: TransitionState,
) -> (proposal: Result<AnchoringTx, ProposalError>)
    requires
        config.wf(),
        prior matches Some(output) ==> output.wf(),
        funding matches Some(tx) ==> tx.wf(),
    ensures
        match proposal {
            Ok(tx) => {
                &&& spec_proposal_error(config.fee, prior, funding, transition) is None
                &&& tx.wf()
                &&& tx.spends@ == spec_spends(prior, funding)
                &&& tx.pays_to@ == config.spec_address()
                &&& tx.amount == spec_funds(prior, funding) - config.fee
                &&& tx.height == height
                &&& tx.state_digest == state_digest
            },
            Err(error) => spec_proposal_error(config.fee, prior, funding, transition) == Some(
                error,
            ),
        },
{
    match transition {
        TransitionState::Stable => {},
        _ => {
            return Err(ProposalError::TransitionPending);
        },
    }
    if prior.is_none() && funding.is_none() {
        return Err(ProposalError::NoPriorAnchor);
    }
    let mut spends: Vec<PrevOutput> = Vec::new();
    let mut funds: u64 = 0;
    match prior {
        Some(output) => {
            spends.push(output);
            funds = funds + output.value;
        },
        None => {},
    }
    match funding {
        Some(tx) => {
            spends.push(tx.output());
            funds = funds + tx.value;
        },
        None => {},
    }
    assert(spends@ == spec_spends(prior, funding));
    if funds < config.fee {
        return Err(ProposalError::InsufficientFunds);
    }
    let (_, pays_to) = config.redeem_script();
    Ok(AnchoringTx { spends, pays_to, amount: funds - config.fee, height, state_digest })
}

/// Builds the transaction that moves the funds of the old wallet into the
/// wallet of `following`, the configuration that takes over: it spends
/// `prior`, the output of the old wallet's latest anchor, and pays all it
/// holds but the fee into the new wallet.
pub fn build_transfer(
    following: &AnchoringConfig,
    prior: PrevOutput,
    height: u64,
    state_digest: Digest,
) -> (proposal: Result<AnchoringTx, ProposalError>)
    requires
        following.wf(),
        prior.wf(),
    ensures
        match proposal {
            Ok(tx) => {
                &&& prior.value >= following.fee
                &&& tx.wf()
                &&& tx.spends@ == seq![prior]
                &&& tx.pays_to@ == following.spec_address()
                &&& tx.amount == prior.value - following.fee
                &&& tx.height == height
                &&& tx.state_digest == state_digest
            },
            Err(error) => error == ProposalError::InsufficientFunds && prior.value < following.fee,
        },
{
    build_proposal(following, Some(prior), None, height, state_digest, TransitionState::Stable)
}

} // verus!
