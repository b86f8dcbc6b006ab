use vstd::prelude::*;

use crate::boost_choice::AbilityBoostChoice;

verus! {

/// A character background: a name, a description and its boost slots.
#[derive(Debug)]
pub struct Background {
    name: String,
    description: String,
    ability_boosts: Vec<AbilityBoostChoice>,
}

impl Background {
    pub closed spec fn name_view(&self) -> Seq<char> {
        self.name@
    }

    pub closed spec fn description_view(&self) -> Seq<char> {
        self.description@
    }

    /// The boost slots, in declaration order.
    pub closed spec fn boost_slots(&self) -> Seq<AbilityBoostChoice> {
        self.ability_boosts@
    }

    pub fn new(name: String, description: String, ability_boosts: Vec<AbilityBoostChoice>) -> (r:
        Self)
        ensures
            r.name_view() == name@,
            r.description_view() == description@,
            r.boost_slots() == ability_boosts@,
    {
        Self { name, description, ability_boosts }
    }

    pub fn name(&self) -> (r: &str)
        ensures
            r@ == self.name_view(),
    {
        self.name.as_str()
    }

    pub fn description(&self) -> (r: &str)
        ensures
            r@ == self.description_view(),
    {
        self.description.as_str()
    }

    pub fn ability_boosts(&self) -> (r: &Vec<AbilityBoostChoice>)
        ensures
            r@ == self.boost_slots(),
    {
        &self.ability_boosts
    }
}

} // verus!
