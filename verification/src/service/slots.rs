//! The mathematical model of signature collection: slots, their contents
//! after a sequence of contributions, and what follows from the model.

use vstd::prelude::*;
use super::schema::Contribution;

verus! {

/// The signed inputs of a proposal: for each input its signatures in
/// ascending order of validator.
pub type CollectedSignatures = Map<nat, Seq<Seq<u8>>>;

/// The signature that the latest contribution of `validator` for `input`
/// carries, if there is one: a later contribution replaces an earlier one.
pub open spec fn latest_signature(msgs: Seq<Contribution>, input: nat, validator: nat) -> Option<
    Seq<u8>,
>
    decreases msgs.len(),
{
    if msgs.len() == 0 {
        None
    } else if msgs.last().input == input && msgs.last().validator == validator {
        Some(msgs.last().signature)
    } else {
        latest_signature(msgs.drop_last(), input, validator)
    }
}

/// The slots of `input`, one for each validator, after all of `msgs`.
pub open spec fn slots(msgs: Seq<Contribution>, input: nat, validators: nat) -> Seq<
    Option<Seq<u8>>,
> {
    Seq::new(validators, |v: int| latest_signature(msgs, input, v as nat))
}

/// The indices of the filled slots, in ascending order.
pub open spec fn signers(slots: Seq<Option<Seq<u8>>>) -> Seq<int>
    decreases slots.len(),
{
    if slots.len() == 0 {
        Seq::empty()
    } else if slots.last() is Some {
        signers(slots.drop_last()).push(slots.len() - 1)
    } else {
        signers(slots.drop_last())
    }
}

/// The signatures in the filled slots, in ascending order of validator.
pub open spec fn filled(slots: Seq<Option<Seq<u8>>>) -> Seq<Seq<u8>>
    decreases slots.len(),
{
    if slots.len() == 0 {
        Seq::empty()
    } else {
        match slots.last() {
            Some(signature) => filled(slots.drop_last()).push(signature),
            None => filled(slots.drop_last()),
        }
    }
}

/// The first `limit` elements of `s`, or all of `s` if it has fewer.
pub open spec fn at_most<A>(s: Seq<A>, limit: nat) -> Seq<A> {
    if s.len() <= limit {
        s
    } else {
        s.take(limit as int)
    }
}

/// The signatures collected for `input`: those of the filled slots in
/// ascending order of validator, cut off at `majority`.
pub open spec fn collected(msgs: Seq<Contribution>, input: nat, validators: nat, majority: nat) -> Seq<
    Seq<u8>,
> {
    at_most(filled(slots(msgs, input, validators)), majority)
}

/// Whether `input` has a signature from at least `majority` validators.
pub open spec fn input_complete(
    msgs: Seq<Contribution>,
    input: nat,
    validators: nat,
    majority: nat,
) -> bool {
    filled(slots(msgs, input, validators)).len() >= majority
}

/// Whether every one of the first `inputs` inputs is complete.
pub open spec fn all_complete(msgs: Seq<Contribution>, inputs: nat, validators: nat, majority: nat) -> bool {
    forall|input: nat| input < inputs ==> input_complete(msgs, input, validators, majority)
}

/// What collection yields for a proposal of `inputs` inputs: nothing until
/// every input is complete, then the collected signatures of every input.
pub open spec fn outcome(msgs: Seq<Contribution>, inputs: nat, validators: nat, majority: nat) -> Option<
    CollectedSignatures,
> {
    if all_complete(msgs, inputs, validators, majority) {
        Some(
            Map::new(
                |input: nat| input < inputs,
                |input: nat| collected(msgs, input, validators, majority),
            ),
        )
    } else {
        None
    }
}

/// A contribution that the collector can place: it names an input of the
/// proposal and a validator of the set.
pub open spec fn placeable(c: Contribution, inputs: nat, validators: nat) -> bool {
    c.input < inputs && c.validator < validators
}

/// The contributions of `msgs` for the proposal `txid` that the collector can
/// place, in the order of their arrival.
pub open spec fn relevant(
    msgs: Seq<Contribution>,
    txid: Seq<u8>,
    inputs: nat,
    validators: nat,
) -> Seq<Contribution>
    decreases msgs.len(),
{
    if msgs.len() == 0 {
        Seq::empty()
    } else if msgs.last().proposal == txid && placeable(msgs.last(), inputs, validators) {
        relevant(msgs.drop_last(), txid, inputs, validators).push(msgs.last())
    } else {
        relevant(msgs.drop_last(), txid, inputs, validators)
    }
}

/// Whether some contribution of `msgs` is from `validator` for `input`.
pub open spec fn contributed(msgs: Seq<Contribution>, input: nat, validator: nat) -> bool {
    exists|k: int|
        0 <= k < msgs.len() && (#[trigger] msgs[k]).input == input && msgs[k].validator
            == validator
}

/// The validators of the set that contributed for `input`.
pub open spec fn contributors(msgs: Seq<Contribution>, input: nat, validators: nat) -> Set<nat> {
    Set::new(|v: nat| v < validators && contributed(msgs, input, v))
}

/// The indices of the filled slots, as a set.
pub open spec fn filled_indices(slots: Seq<Option<Seq<u8>>>) -> Set<nat> {
    Set::new(|v: nat| v < slots.len() && slots[v as int] is Some)
}

/// Filling goes slot by slot: the first `v + 1` slots hold what the first
/// `v` hold, and the signature of slot `v` if it has one.
pub proof fn lemma_filled_step(slots: Seq<Option<Seq<u8>>>, v: int)
    requires
        0 <= v < slots.len(),
    ensures
        filled(slots.take(v + 1)) == match slots[v] {
            Some(signature) => filled(slots.take(v)).push(signature),
            None => filled(slots.take(v)),
        },
{
    assert(slots.take(v + 1).drop_last() == slots.take(v));
}

/// After `earlier + later`, a slot holds what `later` put there, and what
/// `earlier` put there if `later` left it alone.
pub proof fn lemma_latest_concat(
    earlier: Seq<Contribution>,
    later: Seq<Contribution>,
    input: nat,
    validator: nat,
)
    ensures
        latest_signature(earlier + later, input, validator) == match latest_signature(
            later,
            input,
            validator,
        ) {
            Some(signature) => Some(signature),
            None => latest_signature(earlier, input, validator),
        },
    decreases later.len(),
{
    if later.len() == 0 {
        assert(earlier + later == earlier);
    } else {
        assert((earlier + later).drop_last() == earlier + later.drop_last());
        assert((earlier + later).last() == later.last());
        lemma_latest_concat(earlier, later.drop_last(), input, validator);
    }
}

/// A slot is filled exactly when its validator contributed for its input.
pub proof fn lemma_latest_is_some(msgs: Seq<Contribution>, input: nat, validator: nat)
    ensures
        latest_signature(msgs, input, validator) is Some <==> contributed(msgs, input, validator),
    decreases msgs.len(),
{
    if msgs.len() == 0 {
    } else {
        let init = msgs.drop_last();
        lemma_latest_is_some(init, input, validator);
        if msgs.last().input == input && msgs.last().validator == validator {
            assert(msgs[msgs.len() - 1].input == input);
        } else {
            if contributed(init, input, validator) {
                let k = choose|k: int|
                    0 <= k < init.len() && (#[trigger] init[k]).input == input && init[k].validator
                        == validator;
                assert(msgs[k] == init[k]);
            }
            if contributed(msgs, input, validator) {
                let k = choose|k: int|
                    0 <= k < msgs.len() && (#[trigger] msgs[k]).input == input && msgs[k].validator
                        == validator;
                assert(init[k] == msgs[k]);
            }
        }
    }
}

/// There are as many collected signatures as filled slots.
pub proof fn lemma_filled_indices(slots: Seq<Option<Seq<u8>>>)
    ensures
        filled_indices(slots).finite(),
        filled_indices(slots).len() == filled(slots).len(),
    decreases slots.len(),
{
    if slots.len() == 0 {
        assert(filled_indices(slots) =~= Set::empty());
    } else {
        let init = slots.drop_last();
        lemma_filled_indices(init);
        let top = (slots.len() - 1) as nat;
        if slots.last() is Some {
            assert(filled_indices(slots) =~= filled_indices(init).insert(top));
        } else {
            assert(filled_indices(slots) =~= filled_indices(init));
        }
    }
}

/// The signers are the filled slots, each once, in strictly ascending order,
/// and the k-th collected signature is the content of the k-th signer's slot.
pub proof fn lemma_signers(slots: Seq<Option<Seq<u8>>>)
    ensures
        signers(slots).len() == filled(slots).len(),
        forall|k: int|
            0 <= k < signers(slots).len() ==> 0 <= #[trigger] signers(slots)[k] < slots.len()
                && slots[signers(slots)[k]] == Some(filled(slots)[k]),
        forall|j: int, k: int|
            0 <= j < k < signers(slots).len() ==> signers(slots)[j] < signers(slots)[k],
        forall|v: int|
            0 <= v < slots.len() && (#[trigger] slots[v]) is Some ==> signers(slots).contains(v),
    decreases slots.len(),
{
    if slots.len() == 0 {
    } else {
        let init = slots.drop_last();
        let top = slots.len() - 1;
        lemma_signers(init);
        assert forall|v: int| 0 <= v < slots.len() && (#[trigger] slots[v]) is Some implies signers(
            slots,
        ).contains(v) by {
            if v < top {
                assert(init[v] is Some);
                let k = choose|k: int| 0 <= k < signers(init).len() && signers(init)[k] == v;
                assert(signers(slots)[k] == v);
            } else {
                assert(signers(slots)[signers(slots).len() - 1] == v);
            }
        }
        assert forall|k: int| 0 <= k < signers(slots).len() implies 0 <= #[trigger] signers(
            slots,
        )[k] < slots.len() && slots[signers(slots)[k]] == Some(filled(slots)[k]) by {
            if k < signers(init).len() {
                assert(init[signers(init)[k]] == Some(filled(init)[k]));
            }
        }
    }
}

/// What collection yields depends on the contributions only through the
/// latest signature of each slot.
pub proof fn lemma_outcome_depends_on_latest(
    a: Seq<Contribution>,
    b: Seq<Contribution>,
    inputs: nat,
    validators: nat,
    majority: nat,
)
    requires
        forall|input: nat, validator: nat|
            input < inputs && validator < validators ==> latest_signature(a, input, validator)
                == latest_signature(b, input, validator),
    ensures
        outcome(a, inputs, validators, majority) == outcome(b, inputs, validators, majority),
{
    assert forall|input: nat| input < inputs implies slots(a, input, validators) == slots(
        b,
        input,
        validators,
    ) by {
        assert(slots(a, input, validators) =~= slots(b, input, validators));
    }
    assert(all_complete(a, inputs, validators, majority) == all_complete(
        b,
        inputs,
        validators,
        majority,
    )) by {
        if all_complete(a, inputs, validators, majority) {
            assert forall|input: nat| input < inputs implies input_complete(
                b,
                input,
                validators,
                majority,
            ) by {
                assert(input_complete(a, input, validators, majority));
            }
        }
        if all_complete(b, inputs, validators, majority) {
            assert forall|input: nat| input < inputs implies input_complete(
                a,
                input,
                validators,
                majority,
            ) by {
                assert(input_complete(b, input, validators, majority));
            }
        }
    }
    if all_complete(a, inputs, validators, majority) {
        assert(outcome(a, inputs, validators, majority)->0 =~= outcome(
            b,
            inputs,
            validators,
            majority,
        )->0);
    }
}

/// Collection yields a result exactly when, for every input of the proposal,
/// at least `majority` distinct validators of the set have contributed. The
/// result then covers every input, each with exactly `majority` signatures:
/// there is no result for a part of the inputs.
pub proof fn lemma_outcome_needs_majority_for_every_input(
    msgs: Seq<Contribution>,
    inputs: nat,
    validators: nat,
    majority: nat,
)
    ensures
        forall|input: nat| #[trigger] contributors(msgs, input, validators).finite(),
        outcome(msgs, inputs, validators, majority) is Some <==> forall|input: nat|
            input < inputs ==> (#[trigger] contributors(msgs, input, validators)).len() >= majority,
        outcome(msgs, inputs, validators, majority) matches Some(signatures) ==> {
            &&& forall|input: nat| signatures.contains_key(input) <==> input < inputs
            &&& forall|input: nat| input < inputs ==> (#[trigger] signatures[input]).len() == majority
        },
{
    assert forall|input: nat|
        (#[trigger] contributors(msgs, input, validators)).finite() && contributors(
            msgs,
            input,
            validators,
        ).len() == filled(slots(msgs, input, validators)).len() by {
        lemma_contributors_fill_slots(msgs, input, validators);
    }
    if all_complete(msgs, inputs, validators, majority) {
        let signatures = outcome(msgs, inputs, validators, majority)->0;
        assert forall|input: nat| input < inputs implies (#[trigger] signatures[input]).len()
            == majority by {
            assert(input_complete(msgs, input, validators, majority));
        }
        assert forall|input: nat| input < inputs implies (#[trigger] contributors(
            msgs,
            input,
            validators,
        )).len() >= majority by {
            assert(input_complete(msgs, input, validators, majority));
        }
    }
    if forall|input: nat|
        input < inputs ==> (#[trigger] contributors(msgs, input, validators)).len() >= majority {
        assert forall|input: nat| input < inputs implies input_complete(
            msgs,
            input,
            validators,
            majority,
        ) by {
            assert(contributors(msgs, input, validators).len() >= majority);
        }
    }
}

/// The contributors for an input are the validators whose slot is filled,
/// and each of them is counted once however often it contributed.
pub proof fn lemma_contributors_fill_slots(msgs: Seq<Contribution>, input: nat, validators: nat)
    ensures
        contributors(msgs, input, validators).finite(),
        contributors(msgs, input, validators).len() == filled(slots(msgs, input, validators)).len(),
{
    let s = slots(msgs, input, validators);
    lemma_filled_indices(s);
    assert forall|v: nat| contributors(msgs, input, validators).contains(v) == filled_indices(
        s,
    ).contains(v) by {
        lemma_latest_is_some(msgs, input, v);
    }
    assert(contributors(msgs, input, validators) =~= filled_indices(s));
}

/// The signatures collected for an input stand in strictly ascending order
/// of validator: the k-th is the latest signature of the k-th lowest
/// validator that contributed for the input.
pub proof fn lemma_collected_in_validator_order(
    msgs: Seq<Contribution>,
    input: nat,
    validators: nat,
    majority: nat,
)
    ensures
        ({
            let order = signers(slots(msgs, input, validators));
            let signatures = collected(msgs, input, validators, majority);
            &&& signatures.len() <= order.len()
            &&& forall|j: int, k: int| 0 <= j < k < order.len() ==> order[j] < order[k]
            &&& forall|k: int|
                0 <= k < signatures.len() ==> 0 <= #[trigger] order[k] < validators
                    && latest_signature(msgs, input, order[k] as nat) == Some(signatures[k])
            &&& forall|v: nat|
                v < validators && contributed(msgs, input, v) ==> #[trigger] order.contains(
                    v as int,
                )
        }),
{
    let s = slots(msgs, input, validators);
    lemma_signers(s);
    assert forall|v: nat| v < validators && contributed(msgs, input, v) implies #[trigger] signers(
        s,
    ).contains(v as int) by {
        lemma_latest_is_some(msgs, input, v);
        assert(s[v as int] is Some);
    }
}

/// Contributions for different slots may arrive in either order: swapping
/// two neighbours that name different slots changes nothing.
pub proof fn lemma_arrival_order_is_irrelevant(
    before: Seq<Contribution>,
    first: Contribution,
    second: Contribution,
    after: Seq<Contribution>,
    inputs: nat,
    validators: nat,
    majority: nat,
)
    requires
        first.input != second.input || first.validator != second.validator,
    ensures
        outcome(before.push(first).push(second) + after, inputs, validators, majority) == outcome(
            before.push(second).push(first) + after,
            inputs,
            validators,
            majority,
        ),
{
    let a = before.push(first).push(second) + after;
    let b = before.push(second).push(first) + after;
    assert forall|input: nat, validator: nat|
        latest_signature(a, input, validator) == latest_signature(b, input, validator) by {
        lemma_latest_concat(before.push(first).push(second), after, input, validator);
        lemma_latest_concat(before.push(second).push(first), after, input, validator);
        lemma_last_write_wins(before.push(first), second, input, validator);
        lemma_last_write_wins(before, first, input, validator);
        lemma_last_write_wins(before.push(second), first, input, validator);
        lemma_last_write_wins(before, second, input, validator);
    }
    lemma_outcome_depends_on_latest(a, b, inputs, validators, majority);
}

/// Submitting a contribution twice is the same as submitting it once.
pub proof fn lemma_resubmission_changes_nothing(
    before: Seq<Contribution>,
    c: Contribution,
    after: Seq<Contribution>,
    inputs: nat,
    validators: nat,
    majority: nat,
)
    ensures
        outcome(before.push(c).push(c) + after, inputs, validators, majority) == outcome(
            before.push(c) + after,
            inputs,
            validators,
            majority,
        ),
{
    let a = before.push(c).push(c) + after;
    let b = before.push(c) + after;
    assert forall|input: nat, validator: nat|
        latest_signature(a, input, validator) == latest_signature(b, input, validator) by {
        lemma_latest_concat(before.push(c).push(c), after, input, validator);
        lemma_latest_concat(before.push(c), after, input, validator);
        lemma_last_write_wins(before.push(c), c, input, validator);
        lemma_last_write_wins(before, c, input, validator);
    }
    lemma_outcome_depends_on_latest(a, b, inputs, validators, majority);
}

/// The last contribution for a slot is the one that fills it, and it leaves
/// every other slot as it was.
pub proof fn lemma_last_write_wins(
    msgs: Seq<Contribution>,
    c: Contribution,
    input: nat,
    validator: nat,
)
    ensures
        latest_signature(msgs.push(c), input, validator) == if c.input == input && c.validator
            == validator {
            Some(c.signature)
        } else {
            latest_signature(msgs, input, validator)
        },
{
    assert(msgs.push(c).drop_last() == msgs);
}

/// A signature stays with the input that it was made for: a contribution
/// for one input changes nothing of what is collected for another.
pub proof fn lemma_signature_stays_with_its_input(
    msgs: Seq<Contribution>,
    c: Contribution,
    input: nat,
    validators: nat,
    majority: nat,
)
    requires
        c.input != input,
    ensures
        collected(msgs.push(c), input, validators, majority) == collected(
            msgs,
            input,
            validators,
            majority,
        ),
        input_complete(msgs.push(c), input, validators, majority) == input_complete(
            msgs,
            input,
            validators,
            majority,
        ),
{
    assert forall|v: int| 0 <= v < validators implies slots(msgs.push(c), input, validators)[v]
        == slots(msgs, input, validators)[v] by {
        lemma_last_write_wins(msgs, c, input, v as nat);
    }
    assert(slots(msgs.push(c), input, validators) =~= slots(msgs, input, validators));
}

/// A contribution that a later one for the same slot follows has no part in
/// what collection yields: only the latest counts.
pub proof fn lemma_overwritten_contribution_is_ignored(
    before: Seq<Contribution>,
    c: Contribution,
    after: Seq<Contribution>,
    inputs: nat,
    validators: nat,
    majority: nat,
)
    requires
        contributed(after, c.input, c.validator),
    ensures
        outcome(before.push(c) + after, inputs, validators, majority) == outcome(
            before + after,
            inputs,
            validators,
            majority,
        ),
{
    let a = before.push(c) + after;
    let b = before + after;
    assert forall|input: nat, validator: nat|
        latest_signature(a, input, validator) == latest_signature(b, input, validator) by {
        lemma_latest_concat(before.push(c), after, input, validator);
        lemma_latest_concat(before, after, input, validator);
        lemma_last_write_wins(before, c, input, validator);
        lemma_latest_is_some(after, c.input, c.validator);
    }
    lemma_outcome_depends_on_latest(a, b, inputs, validators, majority);
}

} // verus!
