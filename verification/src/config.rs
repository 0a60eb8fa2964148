//! The anchoring configuration that all validators share, and what each
//! node keeps for itself.

use vstd::prelude::*;
use crate::primitives::{Network, PublicKey};
use crate::transactions::FundingTx;
use crate::wallet::{
    key_views, redeem_script, script_address, spec_address_text, spec_redeem_script,
    spec_script_hash, MultisigAddress, RedeemScript, MAX_KEYS,
};

verus! {

/// The number of validators whose agreement settles a question: more than two
/// thirds of `validators`.
pub open spec fn spec_majority_count(validators: nat) -> nat {
    validators * 2 / 3 + 1
}

/// Computes `spec_majority_count` without leaving the range of `usize`.
pub fn majority_count(validators: usize) -> (count: usize)
    ensures
        count == spec_majority_count(validators as nat),
        validators >= 1 ==> 1 <= count <= validators,
{
    validators / 3 * 2 + (validators % 3) * 2 / 3 + 1
}

/// The configuration of one epoch: the validator set, in the order that the
/// redeem script and the signature slots both follow, and the terms of
/// anchoring.
#[derive(Debug, PartialEq, Eq)]
pub struct AnchoringConfig {
    /// The Bitcoin keys of the validators, in their order.
    pub validators: Vec<PublicKey>,
    /// The network of the shared wallet.
    pub network: Network,
    /// What each anchoring transaction pays to the miners, in satoshis.
    pub fee: u64,
    /// The number of ledger blocks from one anchor to the next.
    pub frequency: u64,
    /// The transaction that seeds the wallet, if one was supplied.
    pub funding_tx: Option<FundingTx>,
}

impl AnchoringConfig {
    /// How many validators the epoch has.
    pub open spec fn validator_count(&self) -> nat {
        self.validators@.len()
    }

    /// The threshold of the epoch, as a number.
    pub open spec fn spec_majority(&self) -> nat {
        spec_majority_count(self.validator_count())
    }

    /// The validator set can share a wallet, and anchors are some blocks
    /// apart.
    pub open spec fn wf(&self) -> bool {
        &&& 1 <= self.validator_count() <= MAX_KEYS
        &&& self.frequency >= 1
    }

    /// The redeem script of the epoch's wallet.
    pub open spec fn spec_redeem_script(&self) -> Seq<u8> {
        spec_redeem_script(key_views(self.validators@), self.spec_majority())
    }

    /// The address of the epoch's wallet.
    pub open spec fn spec_address(&self) -> Seq<u8> {
        spec_script_hash(key_views(self.validators@), self.spec_majority())
    }

    /// Makes a configuration, if between one and `MAX_KEYS` validators are
    /// named and `frequency` is not zero.
    pub fn new(
        validators: Vec<PublicKey>,
        network: Network,
        fee: u64,
        frequency: u64,
        funding_tx: Option<FundingTx>,
    ) -> (config: Option<AnchoringConfig>)
        ensures
            config is Some <==> 1 <= validators@.len() <= MAX_KEYS && frequency >= 1,
            config matches Some(c) ==> {
                &&& c.wf()
                &&& c.validators@ == validators@
                &&& c.network == network
                &&& c.fee == fee
                &&& c.frequency == frequency
                &&& c.funding_tx == funding_tx
            },
    {
        if 1 <= validators.len() && validators.len() <= MAX_KEYS && frequency >= 1 {
            Some(AnchoringConfig { validators, network, fee, frequency, funding_tx })
        } else {
            None
        }
    }

    /// Whether the configuration is well formed.
    pub fn is_valid(&self) -> (ok: bool)
        ensures
            ok == self.wf(),
    {
        1 <= self.validators.len() && self.validators.len() <= MAX_KEYS && self.frequency >= 1
    }

    /// A copy of the configuration.
    pub fn duplicate(&self) -> (copy: AnchoringConfig)
        ensures
            copy.validators@ == self.validators@,
            copy.network == self.network,
            copy.fee == self.fee,
            copy.frequency == self.frequency,
            copy.funding_tx == self.funding_tx,
            self.wf() ==> copy.wf(),
    {
        let mut validators: Vec<PublicKey> = Vec::new();
        let mut k: usize = 0;
        while k < self.validators.len()
            invariant
                k <= self.validators@.len(),
                validators@ == self.validators@.take(k as int),
            decreases self.validators@.len() - k,
        {
            validators.push(self.validators[k]);
            k += 1;
        }
        assert(self.validators@.take(self.validators@.len() as int) == self.validators@);
        AnchoringConfig {
            validators,
            network: self.network,
            fee: self.fee,
            frequency: self.frequency,
            funding_tx: self.funding_tx,
        }
    }

    /// The number of signatures that completes an input, and of announcements
    /// that settles the latest anchor.
    pub fn majority_count(&self) -> (count: usize)
        ensures
            count == self.spec_majority(),
            self.wf() ==> 1 <= count <= self.validator_count(),
    {
        majority_count(self.validators.len())
    }

    /// The shared wallet of the epoch: its redeem script and its address.
    pub fn redeem_script(&self) -> (wallet: (RedeemScript, MultisigAddress))
        requires
            self.wf(),
        ensures
            wallet.0@ == self.spec_redeem_script(),
            wallet.1@ == self.spec_address(),
    {
        let threshold = self.majority_count();
        let script = redeem_script(&self.validators, threshold);
        let address = script_address(&script);
        (script, address)
    }
}

/// The wallet is a function of the validators, their order and the threshold
/// that follows from their number, and of nothing else: two configurations
/// with the same validators in the same order have the same redeem script
/// and the same address, byte for byte, and on one network the same address
/// text, whatever else they hold and wherever they are computed.
pub proof fn lemma_same_validators_same_wallet(
    a: AnchoringConfig,
    b: AnchoringConfig,
    network: Network,
)
    requires
        key_views(a.validators@) == key_views(b.validators@),
    ensures
        a.spec_majority() == b.spec_majority(),
        a.spec_redeem_script() == b.spec_redeem_script(),
        a.spec_address() == b.spec_address(),
        spec_address_text(a.spec_address(), network) == spec_address_text(
            b.spec_address(),
            network,
        ),
{
    assert(key_views(a.validators@).len() == a.validators@.len());
    assert(key_views(b.validators@).len() == b.validators@.len());
}

/// What a node keeps for itself: its own place in the validator set.
#[derive(Clone, Copy, Debug, PartialEq, Eq)]
pub struct AnchoringNodeConfig {
    /// The index of this node's key among the validators.
    pub validator: u32,
}

} // verus!
