use vstd::prelude::*;

use crate::ability_score::AbilityScoreType;

verus! {

/// A character class: its key ability and the hit points it grants per level.
#[derive(Debug)]
pub struct Class {
    name: String,
    key_ability: AbilityScoreType,
    hp_increment: u32,
}

impl Class {
    pub closed spec fn name_view(&self) -> Seq<char> {
        self.name@
    }

    pub closed spec fn spec_key_ability(&self) -> AbilityScoreType {
        self.key_ability
    }

    pub closed spec fn spec_hp_increment(&self) -> u32 {
        self.hp_increment
    }

    pub fn new(name: String, key_ability: AbilityScoreType, hp_increment: u32) -> (r: Class)
        ensures
            r.name_view() == name@,
            r.key_ability() == key_ability,
            r.hp_increment() == hp_increment,
    {
        Class { name, key_ability, hp_increment }
    }

    pub fn name(&self) -> (r: &str)
        ensures
            r@ == self.name_view(),
    {
        self.name.as_str()
    }

    #[verifier::when_used_as_spec(spec_key_ability)]
    pub fn key_ability(&self) -> (r: AbilityScoreType)
        ensures
            r == self.key_ability(),
    {
        self.key_ability
    }

    #[verifier::when_used_as_spec(spec_hp_increment)]
    pub fn hp_increment(&self) -> (r: u32)
        ensures
            r == self.hp_increment(),
    {
        self.hp_increment
    }
}

} // verus!
