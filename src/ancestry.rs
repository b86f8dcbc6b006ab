use vstd::prelude::*;

use crate::ability_score::{AbilityScoreType, AbilityTypeSet};
use crate::boost_choice::{
    resolve, result_view, AbilityBoostChoice, AbilityBoostChoiceSet, BoostError,
};
use crate::character::Size;

verus! {

/// A character ancestry: base hit points, size, speed and boost slots.
#[derive(Debug)]
pub struct Ancestry {
    name: String,
    base_hp: u32,
    size: Size,
    speed: u32,
    ability_boosts: Vec<AbilityBoostChoice>,
}

impl Ancestry {
    pub closed spec fn name_view(&self) -> Seq<char> {
        self.name@
    }

    pub closed spec fn spec_base_hp(&self) -> u32 {
        self.base_hp
    }

    pub closed spec fn spec_size(&self) -> Size {
        self.size
    }

    pub closed spec fn spec_speed(&self) -> u32 {
        self.speed
    }

    /// The boost slots, in declaration order.
    pub closed spec fn boost_slots(&self) -> Seq<AbilityBoostChoice> {
        self.ability_boosts@
    }

    pub fn new(
        name: String,
        base_hp: u32,
        size: Size,
        speed: u32,
        ability_boosts: Vec<AbilityBoostChoice>,
    ) -> (r: Ancestry)
        ensures
            r.name_view() == name@,
            r.base_hp() == base_hp,
            r.size() == size,
            r.speed() == speed,
            r.boost_slots() == ability_boosts@,
    {
        Ancestry { name, base_hp, size, speed, ability_boosts }
    }

    pub fn name(&self) -> (r: &str)
        ensures
            r@ == self.name_view(),
    {
        self.name.as_str()
    }

    #[verifier::when_used_as_spec(spec_base_hp)]
    pub fn base_hp(&self) -> (r: u32)
        ensures
            r == self.base_hp(),
    {
        self.base_hp
    }

    #[verifier::when_used_as_spec(spec_size)]
    pub fn size(&self) -> (r: Size)
        ensures
            r == self.size(),
    {
        self.size
    }

    #[verifier::when_used_as_spec(spec_speed)]
    pub fn speed(&self) -> (r: u32)
        ensures
            r == self.speed(),
    {
        self.speed
    }

    pub fn ability_boosts(&self) -> (r: &Vec<AbilityBoostChoice>)
        ensures
            r@ == self.boost_slots(),
    {
        &self.ability_boosts
    }

    /// Resolves `boost_choices` against this ancestry's boost slots.
    pub fn get_ability_boosts(&self, boost_choices: &Vec<AbilityScoreType>) -> (r: Result<
        AbilityTypeSet,
        BoostError,
    >)
        ensures
            result_view(r) == resolve(self.boost_slots(), boost_choices@),
    {
        self.ability_boosts.apply_choices(boost_choices)
    }
}

} // verus!
