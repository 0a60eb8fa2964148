use btc_anchoring::primitives::Digest;
use btc_anchoring::service::lect::{
    observed_kind, ChainStateTracker, Lect, LectKind, Observation, ObservedTx,
};

fn belief(byte: u8, kind: LectKind) -> Lect {
    Lect { txid: Digest::new([byte; 32]), kind }
}

fn rival(byte: u8, confirmations: u64) -> Option<ObservedTx> {
    Some(ObservedTx { txid: Digest::new([byte; 32]), confirmations })
}

#[test]
fn new_tracker_believes_the_initial_and_heard_nothing() {
    let tracker = ChainStateTracker::new(belief(1, LectKind::Funding), 4);
    assert_eq!(tracker.current(), belief(1, LectKind::Funding));
    assert_eq!(tracker.announced, vec![None, None, None, None]);
    assert_eq!(tracker.count_supporters(&belief(1, LectKind::Funding)), 0);
}

#[test]
fn belief_changes_when_the_majority_is_reached() {
    let next = belief(2, LectKind::Broadcast);
    let mut tracker = ChainStateTracker::new(belief(1, LectKind::Funding), 4);
    assert!(!tracker.announce(0, next, 3));
    assert_eq!(tracker.current(), belief(1, LectKind::Funding));
    assert!(!tracker.announce(3, next, 3));
    assert_eq!(tracker.current(), belief(1, LectKind::Funding));
    assert_eq!(tracker.count_supporters(&next), 2);
    assert!(tracker.announce(1, next, 3));
    assert_eq!(tracker.current(), next);
    assert_eq!(tracker.announced, vec![Some(next), Some(next), None, Some(next)]);
}

#[test]
fn differing_observations_without_majority_leave_the_belief() {
    let initial = belief(1, LectKind::Confirmed);
    let one = belief(2, LectKind::Confirmed);
    let other = belief(3, LectKind::Confirmed);
    let mut tracker = ChainStateTracker::new(initial, 4);
    assert!(!tracker.announce(0, one, 3));
    assert!(!tracker.announce(1, other, 3));
    assert_eq!(tracker.current(), initial);
    assert!(!tracker.announce(2, one, 3));
    assert_eq!(tracker.current(), initial);
    assert!(tracker.announce(1, one, 3));
    assert_eq!(tracker.current(), one);
}

#[test]
fn same_transaction_with_another_kind_is_another_announcement() {
    let initial = belief(1, LectKind::Funding);
    let mut tracker = ChainStateTracker::new(initial, 3);
    assert!(!tracker.announce(0, belief(2, LectKind::Broadcast), 3));
    assert!(!tracker.announce(1, belief(2, LectKind::Confirmed), 3));
    assert!(!tracker.announce(2, belief(2, LectKind::Confirmed), 3));
    assert_eq!(tracker.current(), initial);
    assert!(tracker.announce(0, belief(2, LectKind::Confirmed), 3));
    assert_eq!(tracker.current(), belief(2, LectKind::Confirmed));
}

#[test]
fn repeated_announcement_of_one_validator_counts_once() {
    let initial = belief(1, LectKind::Funding);
    let next = belief(2, LectKind::Broadcast);
    let mut tracker = ChainStateTracker::new(initial, 4);
    assert!(!tracker.announce(0, next, 3));
    assert!(!tracker.announce(0, next, 3));
    assert!(!tracker.announce(0, next, 3));
    assert_eq!(tracker.count_supporters(&next), 1);
    assert_eq!(tracker.current(), initial);
}

#[test]
fn announcement_from_outside_the_set_changes_nothing() {
    let initial = belief(1, LectKind::Funding);
    let mut tracker = ChainStateTracker::new(initial, 2);
    assert!(!tracker.announce(2, belief(2, LectKind::Broadcast), 1));
    assert_eq!(tracker.current(), initial);
    assert_eq!(tracker.announced, vec![None, None]);
}

#[test]
fn observed_kind_turns_at_the_first_confirmation() {
    assert_eq!(observed_kind(0), LectKind::Broadcast);
    assert_eq!(observed_kind(1), LectKind::Confirmed);
    assert_eq!(observed_kind(u64::MAX), LectKind::Confirmed);
}

#[test]
fn reconcile_reports_nothing_when_network_and_belief_agree() {
    let tracker = ChainStateTracker::new(belief(1, LectKind::Confirmed), 4);
    let seen = Observation { believed: Some(6), rival: None };
    assert_eq!(tracker.reconcile(&seen), None);
    let seen = Observation { believed: Some(6), rival: rival(2, 6) };
    assert_eq!(tracker.reconcile(&seen), None);
    let seen = Observation { believed: None, rival: None };
    assert_eq!(tracker.reconcile(&seen), None);
    assert_eq!(tracker.current(), belief(1, LectKind::Confirmed));
}

#[test]
fn reconcile_reports_a_broadcast_anchor_that_confirmed() {
    let tracker = ChainStateTracker::new(belief(1, LectKind::Broadcast), 4);
    let seen = Observation { believed: Some(0), rival: None };
    assert_eq!(tracker.reconcile(&seen), None);
    let seen = Observation { believed: Some(1), rival: None };
    assert_eq!(tracker.reconcile(&seen), Some(belief(1, LectKind::Confirmed)));
    assert_eq!(tracker.current(), belief(1, LectKind::Broadcast));
}

#[test]
fn reconcile_reports_a_proposal_that_reached_the_network() {
    let tracker = ChainStateTracker::new(belief(1, LectKind::Proposed), 4);
    let seen = Observation { believed: Some(0), rival: None };
    assert_eq!(tracker.reconcile(&seen), Some(belief(1, LectKind::Broadcast)));
    let seen = Observation { believed: Some(3), rival: None };
    assert_eq!(tracker.reconcile(&seen), Some(belief(1, LectKind::Confirmed)));
}

#[test]
fn reconcile_leaves_a_funding_transaction_alone() {
    let tracker = ChainStateTracker::new(belief(1, LectKind::Funding), 4);
    let seen = Observation { believed: Some(10), rival: None };
    assert_eq!(tracker.reconcile(&seen), None);
}

#[test]
fn reconcile_prefers_a_strictly_deeper_rival() {
    let tracker = ChainStateTracker::new(belief(1, LectKind::Confirmed), 4);
    let seen = Observation { believed: Some(2), rival: rival(7, 3) };
    assert_eq!(tracker.reconcile(&seen), Some(belief(7, LectKind::Confirmed)));
    let seen = Observation { believed: Some(2), rival: rival(7, 2) };
    assert_eq!(tracker.reconcile(&seen), None);
    let seen = Observation { believed: Some(2), rival: rival(7, 1) };
    assert_eq!(tracker.reconcile(&seen), None);
}

#[test]
fn reconcile_follows_the_network_after_a_reorganization() {
    let tracker = ChainStateTracker::new(belief(1, LectKind::Confirmed), 4);
    let seen = Observation { believed: None, rival: rival(7, 0) };
    assert_eq!(tracker.reconcile(&seen), Some(belief(7, LectKind::Broadcast)));
    let seen = Observation { believed: None, rival: rival(7, 4) };
    assert_eq!(tracker.reconcile(&seen), Some(belief(7, LectKind::Confirmed)));
}

#[test]
fn beliefs_are_compared_by_transaction_and_kind() {
    assert!(belief(1, LectKind::Confirmed).same(&belief(1, LectKind::Confirmed)));
    assert!(!belief(1, LectKind::Confirmed).same(&belief(1, LectKind::Broadcast)));
    assert!(!belief(1, LectKind::Confirmed).same(&belief(2, LectKind::Confirmed)));
    let mut bytes = [1u8; 32];
    bytes[31] = 0;
    assert!(!Digest::new([1u8; 32]).same(&Digest::new(bytes)));
    assert!(Digest::new(bytes).same(&Digest::new(bytes)));
}

#[test]
fn divergence_is_seen_when_no_camp_can_reach_the_majority() {
    let initial = belief(1, LectKind::Confirmed);
    let one = belief(2, LectKind::Confirmed);
    let other = belief(3, LectKind::Confirmed);
    let mut tracker = ChainStateTracker::new(initial, 4);
    assert_eq!(tracker.count_silent(), 4);
    assert!(!tracker.is_diverged(3));
    tracker.announce(0, one, 3);
    tracker.announce(1, other, 3);
    assert_eq!(tracker.count_silent(), 2);
    assert!(!tracker.is_diverged(3));
    tracker.announce(2, one, 3);
    assert!(!tracker.is_diverged(3));
    tracker.announce(3, other, 3);
    assert_eq!(tracker.count_silent(), 0);
    assert!(tracker.is_diverged(3));
    assert_eq!(tracker.current(), initial);
    tracker.announce(3, one, 3);
    assert!(!tracker.is_diverged(3));
    assert_eq!(tracker.current(), one);
}

#[test]
fn three_camps_of_four_validators_have_parted() {
    let initial = belief(1, LectKind::Confirmed);
    let mut tracker = ChainStateTracker::new(initial, 4);
    tracker.announce(0, belief(2, LectKind::Confirmed), 3);
    tracker.announce(1, belief(3, LectKind::Confirmed), 3);
    tracker.announce(2, belief(4, LectKind::Confirmed), 3);
    assert_eq!(tracker.count_silent(), 1);
    assert!(tracker.is_diverged(3));
    assert!(!tracker.is_diverged(2));
}
