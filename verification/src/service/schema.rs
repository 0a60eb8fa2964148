//! The protocol transactions that validators send through the ledger, and
//! the anchoring state that the ledger keeps.

use vstd::prelude::*;
use crate::config::AnchoringConfig;
use crate::primitives::{clone_bytes, BitcoinSignature, Digest};
use crate::transactions::ProposalError;
use super::lect::{spec_announce, ChainStateTracker, Lect, LectKind};

verus! {

/// The number under which the host ledger knows the anchoring service.
pub const ANCHORING_SERVICE: u16 = 3;

/// One validator's signature for one input of one proposal.
#[derive(Debug, PartialEq, Eq)]
pub struct TxAnchoringSignature {
    pub validator: u32,
    pub proposal: Digest,
    pub input: u32,
    pub signature: BitcoinSignature,
}

/// What a signature contribution says, as plain mathematical values.
pub struct Contribution {
    pub validator: nat,
    pub proposal: Seq<u8>,
    pub input: nat,
    pub signature: Seq<u8>,
}

impl View for TxAnchoringSignature {
    type V = Contribution;

    open spec fn view(&self) -> Contribution {
        Contribution {
            validator: self.validator as nat,
            proposal: self.proposal@,
            input: self.input as nat,
            signature: self.signature@,
        }
    }
}

impl TxAnchoringSignature {
    /// The input that the signature is for.
    pub fn input(&self) -> (input: u32)
        ensures
            input == self@.input,
    {
        self.input
    }

    /// The index of the signing validator in the validator set.
    pub fn validator(&self) -> (validator: u32)
        ensures
            validator == self@.validator,
    {
        self.validator
    }

    /// The signature bytes.
    pub fn signature(&self) -> (signature: &BitcoinSignature)
        ensures
            signature@ == self@.signature,
    {
        &self.signature
    }

    /// A copy of the contribution.
    pub fn duplicate(&self) -> (copy: TxAnchoringSignature)
        ensures
            copy@ == self@,
    {
        TxAnchoringSignature {
            validator: self.validator,
            proposal: self.proposal,
            input: self.input,
            signature: clone_bytes(&self.signature),
        }
    }
}

/// The contributions of `msgs`, in the same order.
pub open spec fn contributions(msgs: Seq<TxAnchoringSignature>) -> Seq<Contribution> {
    Seq::new(msgs.len(), |k: int| msgs[k]@)
}

/// One validator's announcement of the latest anchor that it sees.
#[derive(Clone, Copy, Debug, PartialEq, Eq)]
pub struct TxAnchoringUpdateLatest {
    pub validator: u32,
    pub lect: Lect,
}

/// A protocol transaction of the anchoring service.
#[derive(Debug, PartialEq, Eq)]
pub enum AnchoringTransaction {
    Signature(TxAnchoringSignature),
    UpdateLatest(TxAnchoringUpdateLatest),
}

/// The anchoring state that all validators agree on: the configuration, the
/// signature contributions in the order of their arrival, and the belief
/// about the latest anchor.
#[derive(Debug, PartialEq, Eq)]
pub struct AnchoringSchema {
    pub genesis: AnchoringConfig,
    pub signatures: Vec<TxAnchoringSignature>,
    pub lects: ChainStateTracker,
}

impl AnchoringSchema {
    /// The configuration is valid, and every validator has a place for its
    /// announcement.
    pub open spec fn wf(&self) -> bool {
        &&& self.genesis.wf()
        &&& self.lects.announced@.len() == self.genesis.validator_count()
    }

    /// Whether the state is well formed.
    pub fn is_valid(&self) -> (ok: bool)
        ensures
            ok == self.wf(),
    {
        self.genesis.is_valid() && self.lects.announced.len() == self.genesis.validators.len()
    }

    /// Records the genesis configuration. The wallet has no anchor yet, so
    /// the configuration must name the funding transaction, which becomes
    /// the first belief; without one there is nothing to start from.
    pub fn create_genesis_config(cfg: &AnchoringConfig) -> (schema: Result<
        AnchoringSchema,
        ProposalError,
    >)
        requires
            cfg.wf(),
        ensures
            match schema {
                Ok(s) => {
                    &&& cfg.funding_tx matches Some(funding)
                    &&& s.wf()
                    &&& s.genesis.validators@ == cfg.validators@
                    &&& s.genesis.network == cfg.network
                    &&& s.genesis.fee == cfg.fee
                    &&& s.genesis.frequency == cfg.frequency
                    &&& s.genesis.funding_tx == cfg.funding_tx
                    &&& s.signatures@.len() == 0
                    &&& s.lects.current == (Lect { txid: funding.id, kind: LectKind::Funding })
                    &&& forall|v: int|
                        0 <= v < s.lects.announced@.len() ==> s.lects.announced@[v] is None
                },
                Err(error) => cfg.funding_tx is None && error == ProposalError::NoPriorAnchor,
            },
    {
        match cfg.funding_tx {
            Some(funding) => {
                let initial = Lect { txid: funding.id, kind: LectKind::Funding };
                Ok(
                    AnchoringSchema {
                        genesis: cfg.duplicate(),
                        signatures: Vec::new(),
                        lects: ChainStateTracker::new(initial, cfg.validators.len()),
                    },
                )
            },
            None => Err(ProposalError::NoPriorAnchor),
        }
    }
}

impl AnchoringTransaction {
    /// Whether the transaction comes from a validator of the set: only such a
    /// transaction is taken into the state.
    pub open spec fn spec_admissible(&self, validators: nat) -> bool {
        match self {
            AnchoringTransaction::Signature(msg) => msg.validator < validators,
            AnchoringTransaction::UpdateLatest(msg) => msg.validator < validators,
        }
    }

    /// Whether the transaction comes from a validator of the set.
    pub fn admissible(&self, schema: &AnchoringSchema) -> (ok: bool)
        ensures
            ok == self.spec_admissible(schema.genesis.validator_count()),
    {
        let validators = schema.genesis.validators.len();
        match self {
            AnchoringTransaction::Signature(msg) => (msg.validator as usize) < validators,
            AnchoringTransaction::UpdateLatest(msg) => (msg.validator as usize) < validators,
        }
    }

    /// Takes the transaction into the state, if it is admissible, and says
    /// whether it was: a signature joins the contributions as the latest,
    /// an announcement goes to the tracker of the latest anchor, which adopts
    /// it as the belief once a majority stands behind it. Anything else is
    /// left as it was.
    pub fn execute(&self, schema: &mut AnchoringSchema) -> (admitted: bool)
        requires
            old(schema).wf(),
        ensures
            final(schema).wf(),
            admitted == self.spec_admissible(old(schema).genesis.validator_count()),
            final(schema).genesis == old(schema).genesis,
            match self {
                AnchoringTransaction::Signature(msg) => {
                    &&& final(schema).lects == old(schema).lects
                    &&& contributions(final(schema).signatures@) == if admitted {
                        contributions(old(schema).signatures@).push(msg@)
                    } else {
                        contributions(old(schema).signatures@)
                    }
                },
                AnchoringTransaction::UpdateLatest(msg) => {
                    &&& final(schema).signatures == old(schema).signatures
                    &&& final(schema).lects@ == spec_announce(
                        old(schema).lects@,
                        msg.validator as nat,
                        msg.lect,
                        old(schema).genesis.spec_majority(),
                    )
                },
            },
    {
        match self {
            AnchoringTransaction::Signature(msg) => {
                if (msg.validator as usize) < schema.genesis.validators.len() {
                    let ghost before = schema.signatures@;
                    schema.signatures.push(msg.duplicate());
                    assert(contributions(schema.signatures@) =~= contributions(before).push(msg@));
                    true
                } else {
                    false
                }
            },
            AnchoringTransaction::UpdateLatest(msg) => {
                let majority = schema.genesis.majority_count();
                let admitted = (msg.validator as usize) < schema.genesis.validators.len();
                schema.lects.announce(msg.validator, msg.lect, majority);
                admitted
            },
        }
    }
}

} // verus!
