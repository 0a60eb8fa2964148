//! The latest expected correct transaction: the validators' agreed belief
//! about the most recent anchor that Bitcoin holds, and how one node's view of
//! the network is held against it.

use vstd::prelude::*;
use crate::primitives::Digest;

verus! {

/// How far the transaction that the belief names has come.
#[derive(Clone, Copy, Debug, PartialEq, Eq, Structural)]
pub enum LectKind {
    /// A funding transaction: the wallet's first spendable output.
    Funding,
    /// A proposal that is not on the network yet.
    Proposed,
    /// An anchor that was broadcast and has no confirmation yet.
    Broadcast,
    /// An anchor that a block of the chain holds.
    Confirmed,
}

/// A belief about the latest anchor: the Bitcoin transaction and its kind.
#[derive(Clone, Copy, Debug, PartialEq, Eq)]
pub struct Lect {
    pub txid: Digest,
    pub kind: LectKind,
}

impl Lect {
    /// Whether two beliefs name the same transaction with the same kind.
    pub fn same(&self, other: &Lect) -> (equal: bool)
        ensures
            equal == (*self == *other),
    {
        self.txid.same(&other.txid) && self.kind == other.kind
    }
}

/// Another transaction that spends the wallet's funds, as the network shows
/// it.
#[derive(Clone, Copy, Debug, PartialEq, Eq)]
pub struct ObservedTx {
    pub txid: Digest,
    /// The number of blocks that confirm it; zero while it waits for one.
    pub confirmations: u64,
}

/// What one node sees on the Bitcoin network, next to the belief.
#[derive(Clone, Copy, Debug, PartialEq, Eq)]
pub struct Observation {
    /// The confirmations of the believed transaction, or `None` if the
    /// network does not hold it any more: it was replaced, or the branch that
    /// held it was reorganized away.
    pub believed: Option<u64>,
    /// The deepest transaction that competes with the believed one, if the
    /// network shows any.
    pub rival: Option<ObservedTx>,
}

/// How far a kind is on the way from proposal to confirmation.
pub open spec fn stage(kind: LectKind) -> nat {
    match kind {
        LectKind::Funding => 0,
        LectKind::Proposed => 0,
        LectKind::Broadcast => 1,
        LectKind::Confirmed => 2,
    }
}

/// The kind of a transaction that the network holds with `confirmations`.
pub open spec fn spec_observed_kind(confirmations: u64) -> LectKind {
    if confirmations >= 1 {
        LectKind::Confirmed
    } else {
        LectKind::Broadcast
    }
}

/// The update that an observation calls for, if any.
///
/// Where the network no longer holds the believed transaction, the rival
/// takes its place. Where it still holds it, a rival takes its place only if
/// it is strictly deeper in the chain; otherwise the believed anchor moves on
/// when the network shows it further than the belief has it. A funding
/// transaction stays what it is.
pub open spec fn spec_reconcile(current: Lect, seen: Observation) -> Option<Lect> {
    match seen.believed {
        None => match seen.rival {
            Some(rival) => Some(
                Lect { txid: rival.txid, kind: spec_observed_kind(rival.confirmations) },
            ),
            None => None,
        },
        Some(depth) => if seen.rival is Some && seen.rival->0.confirmations > depth {
            Some(
                Lect {
                    txid: seen.rival->0.txid,
                    kind: spec_observed_kind(seen.rival->0.confirmations),
                },
            )
        } else if current.kind != LectKind::Funding && stage(spec_observed_kind(depth)) > stage(
            current.kind,
        ) {
            Some(Lect { txid: current.txid, kind: spec_observed_kind(depth) })
        } else {
            None
        },
    }
}

/// The number of validators whose latest announcement is `lect`.
pub open spec fn supporters(announced: Seq<Option<Lect>>, lect: Lect) -> nat
    decreases announced.len(),
{
    if announced.len() == 0 {
        0
    } else if announced.last() == Some(lect) {
        supporters(announced.drop_last(), lect) + 1
    } else {
        supporters(announced.drop_last(), lect)
    }
}

/// The number of validators that have announced nothing yet.
pub open spec fn silent(announced: Seq<Option<Lect>>) -> nat
    decreases announced.len(),
{
    if announced.len() == 0 {
        0
    } else if announced.last() is None {
        silent(announced.drop_last()) + 1
    } else {
        silent(announced.drop_last())
    }
}

/// Whether the validators have parted for good: even if every validator that
/// is still silent joined them, the supporters of no announcement would make
/// a majority. Only a validator that changes its mind can end this.
pub open spec fn spec_diverged(announced: Seq<Option<Lect>>, majority: nat) -> bool {
    &&& silent(announced) < majority
    &&& forall|v: int|
        0 <= v < announced.len() && announced[v] is Some ==> supporters(
            announced,
            (#[trigger] announced[v])->0,
        ) + silent(announced) < majority
}

/// The belief and the announcements after `validator` announces `lect`: the
/// announcement replaces the validator's earlier one, and `lect` becomes the
/// belief once at least `majority` validators stand behind it. An
/// announcement from outside the validator set changes nothing.
pub open spec fn spec_announce(
    state: (Lect, Seq<Option<Lect>>),
    validator: nat,
    lect: Lect,
    majority: nat,
) -> (Lect, Seq<Option<Lect>>) {
    if validator < state.1.len() {
        let announced = state.1.update(validator as int, Some(lect));
        if supporters(announced, lect) >= majority {
            (lect, announced)
        } else {
            (state.0, announced)
        }
    } else {
        state
    }
}

/// One announcement: who announces, and what.
pub struct Announcement {
    pub validator: nat,
    pub lect: Lect,
}

/// The belief and the announcements after all of `msgs`, in order.
pub open spec fn spec_announce_all(
    state: (Lect, Seq<Option<Lect>>),
    msgs: Seq<Announcement>,
    majority: nat,
) -> (Lect, Seq<Option<Lect>>)
    decreases msgs.len(),
{
    if msgs.len() == 0 {
        state
    } else {
        spec_announce(
            spec_announce_all(state, msgs.drop_last(), majority),
            msgs.last().validator,
            msgs.last().lect,
            majority,
        )
    }
}

/// The kind of a transaction that the network holds with `confirmations`.
pub fn observed_kind(confirmations: u64) -> (kind: LectKind)
    ensures
        kind == spec_observed_kind(confirmations),
{
    if confirmations >= 1 {
        LectKind::Confirmed
    } else {
        LectKind::Broadcast
    }
}

/// The agreed belief, and what each validator announced last.
#[derive(Debug, PartialEq, Eq)]
pub struct ChainStateTracker {
    pub current: Lect,
    pub announced: Vec<Option<Lect>>,
}

impl View for ChainStateTracker {
    type V = (Lect, Seq<Option<Lect>>);

    open spec fn view(&self) -> (Lect, Seq<Option<Lect>>) {
        (self.current, self.announced@)
    }
}

impl ChainStateTracker {
    /// A tracker for `validators` validators that believes `initial` and has
    /// heard no announcement.
    pub fn new(initial: Lect, validators: usize) -> (tracker: ChainStateTracker)
        ensures
            tracker.current == initial,
            tracker.announced@.len() == validators,
            forall|v: int| 0 <= v < validators ==> tracker.announced@[v] is None,
    {
        let mut announced: Vec<Option<Lect>> = Vec::new();
        let mut v: usize = 0;
        while v < validators
            invariant
                v <= validators,
                announced@.len() == v,
                forall|w: int| 0 <= w < v ==> announced@[w] is None,
            decreases validators - v,
        {
            announced.push(None);
            v += 1;
        }
        ChainStateTracker { current: initial, announced }
    }

    /// The agreed belief.
    pub fn current(&self) -> (lect: Lect)
        ensures
            lect == self.current,
    {
        self.current
    }

    /// Counts the validators whose latest announcement is `lect`.
    pub fn count_supporters(&self, lect: &Lect) -> (count: usize)
        ensures
            count == supporters(self.announced@, *lect),
    {
        let mut count: usize = 0;
        let mut v: usize = 0;
        while v < self.announced.len()
            invariant
                v <= self.announced@.len(),
                count <= v,
                count == supporters(self.announced@.take(v as int), *lect),
            decreases self.announced@.len() - v,
        {
            assert(self.announced@.take(v + 1).drop_last() == self.announced@.take(v as int));
            let hit = match &self.announced[v] {
                Some(other) => other.same(lect),
                None => false,
            };
            if hit {
                count += 1;
            }
            v += 1;
        }
        assert(self.announced@.take(self.announced@.len() as int) == self.announced@);
        count
    }

    /// Counts the validators that have announced nothing yet.
    pub fn count_silent(&self) -> (count: usize)
        ensures
            count == silent(self.announced@),
    {
        let mut count: usize = 0;
        let mut v: usize = 0;
        while v < self.announced.len()
            invariant
                v <= self.announced@.len(),
                count <= v,
                count == silent(self.announced@.take(v as int)),
            decreases self.announced@.len() - v,
        {
            assert(self.announced@.take(v + 1).drop_last() == self.announced@.take(v as int));
            if self.announced[v].is_none() {
                count += 1;
            }
            v += 1;
        }
        assert(self.announced@.take(self.announced@.len() as int) == self.announced@);
        count
    }

    /// Whether the validators have parted for good, so that waiting for a
    /// majority is of no use and the divergence is to be reported.
    pub fn is_diverged(&self, majority: usize) -> (diverged: bool)
        ensures
            diverged == spec_diverged(self.announced@, majority as nat),
    {
        let quiet = self.count_silent();
        if quiet >= majority {
            return false;
        }
        let mut v: usize = 0;
        while v < self.announced.len()
            invariant
                v <= self.announced@.len(),
                quiet == silent(self.announced@),
                quiet < majority,
                forall|w: int|
                    0 <= w < v && self.announced@[w] is Some ==> supporters(
                        self.announced@,
                        (#[trigger] self.announced@[w])->0,
                    ) + quiet < majority,
            decreases self.announced@.len() - v,
        {
            match &self.announced[v] {
                Some(lect) => {
                    let behind = self.count_supporters(lect);
                    if behind >= majority - quiet {
                        return false;
                    }
                },
                None => {},
            }
            v += 1;
        }
        true
    }

    /// Records that `validator` announces `lect`, and adopts `lect` as the
    /// belief if at least `majority` validators now stand behind it. Returns
    /// whether the belief is `lect` by this announcement.
    pub fn announce(&mut self, validator: u32, lect: Lect, majority: usize) -> (adopted: bool)
        ensures
            final(self)@ == spec_announce(old(self)@, validator as nat, lect, majority as nat),
            adopted == (validator < old(self).announced@.len() && supporters(
                final(self).announced@,
                lect,
            ) >= majority),
    {
        if (validator as usize) < self.announced.len() {
            self.announced[validator as usize] = Some(lect);
            if self.count_supporters(&lect) >= majority {
                self.current = lect;
                true
            } else {
                false
            }
        } else {
            false
        }
    }

    /// Holds what the node sees on the network against the belief, and
    /// returns the update to announce, if the two differ. The belief itself
    /// stays as it is: it changes by announcements only.
    pub fn reconcile(&self, seen: &Observation) -> (update: Option<Lect>)
        ensures
            update == spec_reconcile(self.current, *seen),
    {
        match seen.believed {
            None => match seen.rival {
                Some(rival) => Some(
                    Lect { txid: rival.txid, kind: observed_kind(rival.confirmations) },
                ),
                None => None,
            },
            Some(depth) => {
                match seen.rival {
                    Some(rival) => {
                        if rival.confirmations > depth {
                            return Some(
                                Lect { txid: rival.txid, kind: observed_kind(rival.confirmations) },
                            );
                        }
                    },
                    None => {},
                }
                let kind = observed_kind(depth);
                let moves_on = match self.current.kind {
                    LectKind::Funding => false,
                    LectKind::Proposed => true,
                    LectKind::Broadcast => depth >= 1,
                    LectKind::Confirmed => false,
                };
                if moves_on {
                    Some(Lect { txid: self.current.txid, kind })
                } else {
                    None
                }
            },
        }
    }
}

/// An announcement that does not bring its transaction to a majority leaves
/// the belief as it was.
pub proof fn lemma_no_majority_no_change(
    state: (Lect, Seq<Option<Lect>>),
    validator: nat,
    lect: Lect,
    majority: nat,
)
    requires
        supporters(spec_announce(state, validator, lect, majority).1, lect) < majority,
    ensures
        spec_announce(state, validator, lect, majority).0 == state.0,
{
}

/// However many announcements arrive, and however they differ, the belief
/// stays what it was as long as none of them brings its transaction to a
/// majority.
pub proof fn lemma_belief_holds_until_majority(
    state: (Lect, Seq<Option<Lect>>),
    msgs: Seq<Announcement>,
    majority: nat,
)
    requires
        forall|k: int|
            0 <= k < msgs.len() ==> supporters(
                (#[trigger] spec_announce_all(state, msgs.take(k + 1), majority)).1,
                msgs[k].lect,
            ) < majority,
    ensures
        spec_announce_all(state, msgs, majority).0 == state.0,
    decreases msgs.len(),
{
    if msgs.len() > 0 {
        let init = msgs.drop_last();
        assert forall|k: int| 0 <= k < init.len() implies supporters(
            (#[trigger] spec_announce_all(state, init.take(k + 1), majority)).1,
            init[k].lect,
        ) < majority by {
            assert(init.take(k + 1) == msgs.take(k + 1));
        }
        lemma_belief_holds_until_majority(state, init, majority);
        assert(msgs.take(msgs.len() as int) == msgs);
        let k = msgs.len() - 1;
        assert(supporters(spec_announce_all(state, msgs.take(k + 1), majority).1, msgs[k].lect)
            < majority);
    }
}

/// While the network still holds the believed transaction, an update never
/// goes back: it either moves the same transaction on towards confirmation,
/// or names a rival that is strictly deeper in the chain.
pub proof fn lemma_reconcile_never_regresses(current: Lect, seen: Observation)
    requires
        seen.believed is Some,
        spec_reconcile(current, seen) is Some,
    ensures
        ({
            let next = spec_reconcile(current, seen)->0;
            ||| next.txid == current.txid && stage(next.kind) > stage(current.kind)
            ||| seen.rival is Some && next.txid == seen.rival->0.txid
                && seen.rival->0.confirmations > seen.believed->0
        }),
{
}

} // verus!
