use vstd::prelude::*;

use crate::ability_score::{AbilityScoreType, AbilityTypeSet};

verus! {

/// Why a list of selections does not fit a list of boost slots.
#[derive(Debug, Clone, Copy, PartialEq, Eq, Structural)]
pub enum BoostError {
    /// A restricted slot received a selection outside its options.
    InvalidChoice { choice: AbilityScoreType, options: AbilityTypeSet },
    /// Two slots resolved to the same ability.
    DuplicateBoost(AbilityScoreType),
    /// A slot needed a selection after all selections were used.
    TooFewChoices,
    /// Selections were left over after the last slot.
    TooManyChoices,
}

/// A slot whose ability the player picks freely.
#[derive(Debug, Clone, Copy, PartialEq, Eq, Structural)]
pub struct AbilityBoostFree {}

impl AbilityBoostFree {
    pub fn select(&self, boost: AbilityScoreType) -> (r: AbilityScoreType)
        ensures
            r == boost,
    {
        boost
    }
}

/// A slot whose ability the player picks from a fixed set of options.
#[derive(Debug, Clone, Copy, PartialEq, Eq, Structural)]
pub struct AbilityBoostRestricted {
    options: AbilityTypeSet,
}

impl AbilityBoostRestricted {
    pub closed spec fn options(&self) -> AbilityTypeSet {
        self.options
    }

    pub fn select(&self, boost: AbilityScoreType) -> (r: Result<AbilityScoreType, BoostError>)
        ensures
            r == (if self.options()@.contains(boost) {
                Ok(boost)
            } else {
                Err(BoostError::InvalidChoice { choice: boost, options: self.options() })
            }),
    {
        if self.options.contains(boost) {
            Ok(boost)
        } else {
            Err(BoostError::InvalidChoice { choice: boost, options: self.options })
        }
    }
}

/// One boost slot: free, restricted to a set of options, or fixed.
#[derive(Debug, Clone, Copy, PartialEq, Eq, Structural)]
pub enum AbilityBoostChoice {
    Free(AbilityBoostFree),
    Restricted(AbilityBoostRestricted),
    Predetermined(AbilityScoreType),
}

impl AbilityBoostChoice {
    pub fn free() -> (r: AbilityBoostChoice)
        ensures
            r is Free,
    {
        AbilityBoostChoice::Free(AbilityBoostFree {})
    }

    pub fn restricted(options: AbilityTypeSet) -> (r: AbilityBoostChoice)
        ensures
            r is Restricted,
            r->Restricted_0.options() == options,
    {
        AbilityBoostChoice::Restricted(AbilityBoostRestricted { options })
    }

    pub fn predetermined(boost: AbilityScoreType) -> (r: AbilityBoostChoice)
        ensures
            r == AbilityBoostChoice::Predetermined(boost),
    {
        AbilityBoostChoice::Predetermined(boost)
    }
}

/// What one slot resolves to, given the selections not yet used.
pub open spec fn slot_target(slot: AbilityBoostChoice, choices: Seq<AbilityScoreType>) -> Result<
    AbilityScoreType,
    BoostError,
> {
    match slot {
        AbilityBoostChoice::Predetermined(t) => Ok(t),
        AbilityBoostChoice::Free(_) => {
            if choices.len() == 0 {
                Err(BoostError::TooFewChoices)
            } else {
                Ok(choices[0])
            }
        },
        AbilityBoostChoice::Restricted(r) => {
            if choices.len() == 0 {
                Err(BoostError::TooFewChoices)
            } else if r.options()@.contains(choices[0]) {
                Ok(choices[0])
            } else {
                Err(BoostError::InvalidChoice { choice: choices[0], options: r.options() })
            }
        },
    }
}

/// The selections left after one slot: a fixed slot uses none, any other uses one.
pub open spec fn remaining_choices(slot: AbilityBoostChoice, choices: Seq<AbilityScoreType>) -> Seq<
    AbilityScoreType,
> {
    if slot is Predetermined {
        choices
    } else {
        choices.drop_first()
    }
}

/// The walk over `slots` in order, with `acc` the abilities resolved so far:
/// the first error met, or the set of all resolved abilities.
pub open spec fn resolve_from(
    slots: Seq<AbilityBoostChoice>,
    choices: Seq<AbilityScoreType>,
    acc: Set<AbilityScoreType>,
) -> Result<Set<AbilityScoreType>, BoostError>
    decreases slots.len(),
{
    if slots.len() == 0 {
        if choices.len() == 0 {
            Ok(acc)
        } else {
            Err(BoostError::TooManyChoices)
        }
    } else {
        match slot_target(slots[0], choices) {
            Err(e) => Err(e),
            Ok(t) => {
                if acc.contains(t) {
                    Err(BoostError::DuplicateBoost(t))
                } else {
                    resolve_from(
                        slots.drop_first(),
                        remaining_choices(slots[0], choices),
                        acc.insert(t),
                    )
                }
            },
        }
    }
}

/// The outcome of resolving `choices` against `slots`, starting from no abilities.
pub open spec fn resolve(slots: Seq<AbilityBoostChoice>, choices: Seq<AbilityScoreType>) -> Result<
    Set<AbilityScoreType>,
    BoostError,
> {
    resolve_from(slots, choices, Set::empty())
}

/// A resolution result with the set replaced by its members.
pub open spec fn result_view(r: Result<AbilityTypeSet, BoostError>) -> Result<
    Set<AbilityScoreType>,
    BoostError,
> {
    match r {
        Ok(s) => Ok(s@),
        Err(e) => Err(e),
    }
}

/// A list of boost slots that resolves a list of selections.
pub trait AbilityBoostChoiceSet {
    spec fn slots(&self) -> Seq<AbilityBoostChoice>;

    fn apply_choices(&self, choices: &Vec<AbilityScoreType>) -> (r: Result<
        AbilityTypeSet,
        BoostError,
    >)
        ensures
            result_view(r) == resolve(self.slots(), choices@),
    ;
}

impl AbilityBoostChoiceSet for Vec<AbilityBoostChoice> {
    open spec fn slots(&self) -> Seq<AbilityBoostChoice> {
        self@
    }

    fn apply_choices(&self, choices: &Vec<AbilityScoreType>) -> (r: Result<
        AbilityTypeSet,
        BoostError,
    >) {
        let mut result = AbilityTypeSet::new();
        let mut next: usize = 0;
        let mut i: usize = 0;
        assert(self@.skip(0) =~= self@);
        assert(choices@.skip(0) =~= choices@);
        while i < self.len()
            invariant
                i <= self@.len(),
                next <= choices@.len(),
                resolve(self@, choices@) == resolve_from(
                    self@.skip(i as int),
                    choices@.skip(next as int),
                    result@,
                ),
            decreases self@.len() - i,
        {
            let ghost rest = self@.skip(i as int);
            let ghost left = choices@.skip(next as int);
            assert(rest[0] == self@[i as int]);
            assert(rest.drop_first() =~= self@.skip(i + 1));
            assert(next < choices@.len() ==> left[0] == choices@[next as int]);
            assert(next < choices@.len() ==> left.drop_first() =~= choices@.skip(next + 1));
            let choice = match &self[i] {
                AbilityBoostChoice::Predetermined(boost) => *boost,
                AbilityBoostChoice::Free(free) => {
                    if next < choices.len() {
                        let c = free.select(choices[next]);
                        next = next + 1;
                        c
                    } else {
                        return Err(BoostError::TooFewChoices);
                    }
                },
                AbilityBoostChoice::Restricted(options) => {
                    if next < choices.len() {
                        match options.select(choices[next]) {
                            Ok(c) => {
                                next = next + 1;
                                c
                            },
                            Err(e) => {
                                return Err(e);
                            },
                        }
                    } else {
                        return Err(BoostError::TooFewChoices);
                    }
                },
            };
            if result.contains(choice) {
                return Err(BoostError::DuplicateBoost(choice));
            }
            result.insert(choice);
            i = i + 1;
        }
        assert(self@.skip(i as int).len() == 0);
        if next < choices.len() {
            Err(BoostError::TooManyChoices)
        } else {
            assert(choices@.skip(next as int).len() == 0);
            Ok(result)
        }
    }
}

} // verus!
