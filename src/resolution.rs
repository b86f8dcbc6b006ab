use vstd::prelude::*;

use crate::ability_score::AbilityScoreType;
use crate::boost_choice::{
    remaining_choices, resolve, resolve_from, slot_target, AbilityBoostChoice, BoostError,
};

verus! {

/// The number of slots that take a selection (every slot but the fixed ones).
pub open spec fn selectable_count(slots: Seq<AbilityBoostChoice>) -> nat
    decreases slots.len(),
{
    if slots.len() == 0 {
        0
    } else {
        (if slots[0] is Predetermined {
            0nat
        } else {
            1nat
        }) + selectable_count(slots.drop_first())
    }
}

/// The abilities that the slots resolve to, in slot order, up to the first slot
/// that finds no selection left or gets a selection outside its options.
pub open spec fn resolved_targets(
    slots: Seq<AbilityBoostChoice>,
    choices: Seq<AbilityScoreType>,
) -> Seq<AbilityScoreType>
    decreases slots.len(),
{
    if slots.len() == 0 {
        Seq::empty()
    } else {
        match slot_target(slots[0], choices) {
            Ok(t) => seq![t] + resolved_targets(
                slots.drop_first(),
                remaining_choices(slots[0], choices),
            ),
            Err(_) => Seq::empty(),
        }
    }
}

/// No restricted slot that is reached gets a selection outside its options.
pub open spec fn within_options(
    slots: Seq<AbilityBoostChoice>,
    choices: Seq<AbilityScoreType>,
) -> bool
    decreases slots.len(),
{
    if slots.len() == 0 {
        true
    } else {
        match slot_target(slots[0], choices) {
            Ok(_) => within_options(slots.drop_first(), remaining_choices(slots[0], choices)),
            Err(e) => e !is InvalidChoice,
        }
    }
}

/// `ts` holds no ability twice and none of `acc`.
pub open spec fn fresh_targets(ts: Seq<AbilityScoreType>, acc: Set<AbilityScoreType>) -> bool {
    &&& ts.no_duplicates()
    &&& forall|i: int| 0 <= i < ts.len() ==> !acc.contains(#[trigger] ts[i])
}

proof fn lemma_fresh_targets_step(
    t: AbilityScoreType,
    rest: Seq<AbilityScoreType>,
    acc: Set<AbilityScoreType>,
)
    requires
        !acc.contains(t),
    ensures
        fresh_targets(seq![t] + rest, acc) == fresh_targets(rest, acc.insert(t)),
{
    let ts = seq![t] + rest;
    assert(forall|i: int| 0 <= i < rest.len() ==> ts[i + 1] == rest[i]);
    if fresh_targets(ts, acc) {
        assert forall|i: int| 0 <= i < rest.len() implies !acc.insert(t).contains(
            #[trigger] rest[i],
        ) by {
            assert(ts[0] != ts[i + 1]);
        }
        assert forall|i: int, j: int|
            0 <= i < rest.len() && 0 <= j < rest.len() && i != j implies rest[i] != rest[j] by {
            assert(ts[i + 1] != ts[j + 1]);
        }
    }
    if fresh_targets(rest, acc.insert(t)) {
        assert forall|i: int| 0 <= i < ts.len() implies !acc.contains(#[trigger] ts[i]) by {
            if i > 0 {
                assert(ts[i] == rest[i - 1]);
            }
        }
        assert forall|i: int, j: int|
            0 <= i < ts.len() && 0 <= j < ts.len() && i != j implies ts[i] != ts[j] by {
            if i > 0 && j > 0 {
                assert(ts[i] == rest[i - 1] && ts[j] == rest[j - 1]);
            } else if i > 0 {
                assert(ts[i] == rest[i - 1]);
                assert(!acc.insert(t).contains(rest[i - 1]));
            } else if j > 0 {
                assert(ts[j] == rest[j - 1]);
                assert(!acc.insert(t).contains(rest[j - 1]));
            }
        }
    }
}

/// How the walk ends, in terms of the resolved targets and the selection count.
proof fn lemma_resolve_from_outcome(
    slots: Seq<AbilityBoostChoice>,
    choices: Seq<AbilityScoreType>,
    acc: Set<AbilityScoreType>,
)
    ensures
        ({
            let ts = resolved_targets(slots, choices);
            let r = resolve_from(slots, choices, acc);
            &&& fresh_targets(ts, acc) && within_options(slots, choices) && choices.len()
                == selectable_count(slots) ==> r == Ok::<Set<AbilityScoreType>, BoostError>(acc + ts.to_set()) && ts.len()
                == slots.len()
            &&& fresh_targets(ts, acc) && within_options(slots, choices) && choices.len()
                < selectable_count(slots) ==> r == Err::<Set<AbilityScoreType>, BoostError>(
                BoostError::TooFewChoices,
            )
            &&& fresh_targets(ts, acc) && within_options(slots, choices) && choices.len()
                > selectable_count(slots) ==> r == Err::<Set<AbilityScoreType>, BoostError>(
                BoostError::TooManyChoices,
            )
            &&& !fresh_targets(ts, acc) ==> r is Err && r->Err_0 is DuplicateBoost
        }),
    decreases slots.len(),
{
    let ts = resolved_targets(slots, choices);
    if slots.len() == 0 {
        assert(acc + ts.to_set() =~= acc);
    } else {
        let slot = slots[0];
        match slot_target(slot, choices) {
            Err(e) => {
                assert(ts.len() == 0);
                assert(fresh_targets(ts, acc));
                if e is TooFewChoices {
                    assert(choices.len() == 0 && slot !is Predetermined);
                }
            },
            Ok(t) => {
                let rest = resolved_targets(slots.drop_first(), remaining_choices(slot, choices));
                assert(ts == seq![t] + rest);
                if acc.contains(t) {
                    assert(ts[0] == t);
                } else {
                    lemma_resolve_from_outcome(
                        slots.drop_first(),
                        remaining_choices(slot, choices),
                        acc.insert(t),
                    );
                    lemma_fresh_targets_step(t, rest, acc);
                    assert((seq![t] + rest).to_set() =~= rest.to_set().insert(t)) by {
                        assert forall|x: AbilityScoreType|
                            (seq![t] + rest).contains(x) implies rest.to_set().insert(t).contains(
                            x,
                        ) by {
                            let k = choose|k: int|
                                0 <= k < (seq![t] + rest).len() && (seq![t] + rest)[k] == x;
                            if k > 0 {
                                assert(rest[k - 1] == x);
                            }
                        }
                        assert forall|x: AbilityScoreType|
                            rest.to_set().insert(t).contains(x) implies (seq![t]
                            + rest).contains(x) by {
                            if x == t {
                                assert((seq![t] + rest)[0] == x);
                            } else {
                                let k = choose|k: int| 0 <= k < rest.len() && rest[k] == x;
                                assert((seq![t] + rest)[k + 1] == x);
                            }
                        }
                    }
                    assert(acc.insert(t) + rest.to_set() =~= acc + ts.to_set());
                }
            },
        }
    }
}

/// When there is exactly one selection for each slot that takes one, every
/// restricted slot gets one of its options, and no two slots resolve to the same
/// ability, the resolution succeeds with one ability for each slot.
pub proof fn lemma_exact_selections_succeed(
    slots: Seq<AbilityBoostChoice>,
    choices: Seq<AbilityScoreType>,
)
    requires
        choices.len() == selectable_count(slots),
        within_options(slots, choices),
        resolved_targets(slots, choices).no_duplicates(),
    ensures
        resolve(slots, choices) == Ok::<Set<AbilityScoreType>, BoostError>(
            resolved_targets(slots, choices).to_set(),
        ),
        resolved_targets(slots, choices).to_set().len() == slots.len(),
{
    let ts = resolved_targets(slots, choices);
    lemma_resolve_from_outcome(slots, choices, Set::empty());
    assert(Set::<AbilityScoreType>::empty() + ts.to_set() =~= ts.to_set());
    ts.unique_seq_to_set();
}

/// With every restricted slot given one of its options and no ability resolved
/// twice, fewer selections than selectable slots fail with `TooFewChoices`, and
/// more fail with `TooManyChoices`.
pub proof fn lemma_selection_count_mismatch(
    slots: Seq<AbilityBoostChoice>,
    choices: Seq<AbilityScoreType>,
)
    requires
        within_options(slots, choices),
        resolved_targets(slots, choices).no_duplicates(),
    ensures
        choices.len() < selectable_count(slots) ==> resolve(slots, choices) == Err::<
            Set<AbilityScoreType>,
            BoostError,
        >(BoostError::TooFewChoices),
        choices.len() > selectable_count(slots) ==> resolve(slots, choices) == Err::<
            Set<AbilityScoreType>,
            BoostError,
        >(BoostError::TooManyChoices),
{
    lemma_resolve_from_outcome(slots, choices, Set::empty());
}

/// When two slots resolve to the same ability, whatever their kinds, the
/// resolution fails with `DuplicateBoost`.
pub proof fn lemma_repeated_target_fails(
    slots: Seq<AbilityBoostChoice>,
    choices: Seq<AbilityScoreType>,
)
    requires
        !resolved_targets(slots, choices).no_duplicates(),
    ensures
        resolve(slots, choices) is Err,
        resolve(slots, choices)->Err_0 is DuplicateBoost,
{
    lemma_resolve_from_outcome(slots, choices, Set::empty());
}

} // verus!
