use vstd::prelude::*;

verus! {

/// The value a score takes after one boost: +2 below 18, +1 from 18 on.
pub open spec fn boosted_value(v: int) -> int {
    if v < 18 {
        v + 2
    } else {
        v + 1
    }
}

/// A single ability score.
#[derive(Debug, Clone, Copy, PartialEq, Eq, Structural, PartialOrd, Ord)]
pub struct AbilityScore {
    value: u32,
}

impl AbilityScore {
    pub closed spec fn spec_value(&self) -> u32 {
        self.value
    }

    pub fn new(value: u32) -> (r: AbilityScore)
        ensures
            r.value() == value,
    {
        AbilityScore { value }
    }

    #[verifier::when_used_as_spec(spec_value)]
    pub fn value(&self) -> (r: u32)
        ensures
            r == self.value(),
    {
        self.value
    }

    /// Raises the score by 2 while it is below 18, and by 1 from 18 on.
    pub fn boost(&mut self)
        requires
            old(self).value() < u32::MAX,
        ensures
            final(self).value() == boosted_value(old(self).value() as int),
    {
        if self.value < 18 {
            self.value = self.value + 2;
        } else {
            self.value = self.value + 1;
        }
    }
}

/// The six abilities.
#[derive(Debug, Clone, Copy, PartialEq, Eq, Structural, Hash, PartialOrd, Ord)]
pub enum AbilityScoreType {
    Strength,
    Dexterity,
    Constitution,
    Intelligence,
    Wisdom,
    Charisma,
}

/// A set of abilities, one flag per ability.
#[derive(Debug, Clone, Copy, PartialEq, Eq, Structural)]
pub struct AbilityTypeSet {
    strength: bool,
    dexterity: bool,
    constitution: bool,
    intelligence: bool,
    wisdom: bool,
    charisma: bool,
}

impl AbilityTypeSet {
    pub closed spec fn has(&self, t: AbilityScoreType) -> bool {
        match t {
            AbilityScoreType::Strength => self.strength,
            AbilityScoreType::Dexterity => self.dexterity,
            AbilityScoreType::Constitution => self.constitution,
            AbilityScoreType::Intelligence => self.intelligence,
            AbilityScoreType::Wisdom => self.wisdom,
            AbilityScoreType::Charisma => self.charisma,
        }
    }

    pub fn new() -> (r: AbilityTypeSet)
        ensures
            r@ == Set::<AbilityScoreType>::empty(),
    {
        let r = AbilityTypeSet {
            strength: false,
            dexterity: false,
            constitution: false,
            intelligence: false,
            wisdom: false,
            charisma: false,
        };
        assert(r@ =~= Set::<AbilityScoreType>::empty());
        r
    }

    pub fn contains(&self, t: AbilityScoreType) -> (r: bool)
        ensures
            r == self@.contains(t),
    {
        match t {
            AbilityScoreType::Strength => self.strength,
            AbilityScoreType::Dexterity => self.dexterity,
            AbilityScoreType::Constitution => self.constitution,
            AbilityScoreType::Intelligence => self.intelligence,
            AbilityScoreType::Wisdom => self.wisdom,
            AbilityScoreType::Charisma => self.charisma,
        }
    }

    pub fn insert(&mut self, t: AbilityScoreType)
        ensures
            final(self)@ == old(self)@.insert(t),
    {
        match t {
            AbilityScoreType::Strength => self.strength = true,
            AbilityScoreType::Dexterity => self.dexterity = true,
            AbilityScoreType::Constitution => self.constitution = true,
            AbilityScoreType::Intelligence => self.intelligence = true,
            AbilityScoreType::Wisdom => self.wisdom = true,
            AbilityScoreType::Charisma => self.charisma = true,
        }
        assert(self@ =~= old(self)@.insert(t));
    }

    /// The set of the abilities listed in `types`.
    pub fn from_types(types: &Vec<AbilityScoreType>) -> (r: AbilityTypeSet)
        ensures
            r@ == types@.to_set(),
    {
        let mut r = AbilityTypeSet::new();
        let mut i: usize = 0;
        while i < types.len()
            invariant
                i <= types@.len(),
                r@ == types@.take(i as int).to_set(),
            decreases types@.len() - i,
        {
            proof {
                assert(types@.take(i + 1) == types@.take(i as int).push(types@[i as int]));
                types@.take(i as int).lemma_push_to_set_commute(types@[i as int]);
            }
            r.insert(types[i]);
            i = i + 1;
        }
        assert(types@.take(i as int) == types@);
        r
    }
}

impl View for AbilityTypeSet {
    type V = Set<AbilityScoreType>;

    open spec fn view(&self) -> Set<AbilityScoreType> {
        Set::new(|t: AbilityScoreType| self.has(t))
    }
}

/// The value of one ability after the boost sets `sets` are applied in order to
/// a score of 10.
pub open spec fn score_after(sets: Seq<Set<AbilityScoreType>>, t: AbilityScoreType) -> int
    decreases sets.len(),
{
    if sets.len() == 0 {
        10
    } else {
        let prev = score_after(sets.drop_last(), t);
        if sets.last().contains(t) {
            boosted_value(prev)
        } else {
            prev
        }
    }
}

/// The members of each set in `sets`.
pub open spec fn set_views(sets: Seq<AbilityTypeSet>) -> Seq<Set<AbilityScoreType>> {
    sets.map_values(|s: AbilityTypeSet| s@)
}

proof fn lemma_score_after_bounds(sets: Seq<Set<AbilityScoreType>>, t: AbilityScoreType)
    ensures
        10 <= score_after(sets, t) <= 10 + 2 * sets.len(),
    decreases sets.len(),
{
    if sets.len() > 0 {
        lemma_score_after_bounds(sets.drop_last(), t);
    }
}

/// The six ability scores of a character.
#[derive(Debug, Clone, Copy, PartialEq, Eq, Structural)]
pub struct AbilityScoreSet {
    strength: AbilityScore,
    dexterity: AbilityScore,
    constitution: AbilityScore,
    intelligence: AbilityScore,
    wisdom: AbilityScore,
    charisma: AbilityScore,
}

impl AbilityScoreSet {
    pub closed spec fn spec_get(&self, ability_score: AbilityScoreType) -> AbilityScore {
        match ability_score {
            AbilityScoreType::Strength => self.strength,
            AbilityScoreType::Dexterity => self.dexterity,
            AbilityScoreType::Constitution => self.constitution,
            AbilityScoreType::Intelligence => self.intelligence,
            AbilityScoreType::Wisdom => self.wisdom,
            AbilityScoreType::Charisma => self.charisma,
        }
    }

    /// Every ability at 10.
    pub fn new() -> (r: AbilityScoreSet)
        ensures
            forall|t: AbilityScoreType| #[trigger] r.get(t).value() == 10,
    {
        AbilityScoreSet {
            strength: AbilityScore::new(10),
            dexterity: AbilityScore::new(10),
            constitution: AbilityScore::new(10),
            intelligence: AbilityScore::new(10),
            wisdom: AbilityScore::new(10),
            charisma: AbilityScore::new(10),
        }
    }

    /// Starts from every ability at 10 and applies each set of `boosts` in order.
    pub fn with_boosts(boosts: &Vec<AbilityTypeSet>) -> (r: AbilityScoreSet)
        requires
            10 + 2 * boosts@.len() <= u32::MAX,
        ensures
            forall|t: AbilityScoreType| #[trigger] r.get(t).value() == score_after(set_views(boosts@), t),
    {
        let mut set = AbilityScoreSet::new();
        let mut i: usize = 0;
        assert(set_views(boosts@).take(0).len() == 0);
        while i < boosts.len()
            invariant
                i <= boosts@.len(),
                10 + 2 * boosts@.len() <= u32::MAX,
                forall|t: AbilityScoreType|
                    #[trigger] set.get(t).value() == score_after(set_views(boosts@).take(i as int), t),
            decreases boosts@.len() - i,
        {
            assert forall|t: AbilityScoreType| set.get(t).value() < u32::MAX by {
                lemma_score_after_bounds(set_views(boosts@).take(i as int), t);
            }
            set.boost(&boosts[i]);
            assert(set_views(boosts@).take(i + 1).drop_last() == set_views(boosts@).take(i as int));
            i = i + 1;
        }
        assert(set_views(boosts@).take(i as int) == set_views(boosts@));
        set
    }

    /// Boosts once each ability in `boosts`.
    pub fn boost(&mut self, boosts: &AbilityTypeSet)
        requires
            forall|t: AbilityScoreType| boosts@.contains(t) ==> #[trigger] old(self).get(t).value() < u32::MAX,
        ensures
            forall|t: AbilityScoreType| #[trigger] final(self).get(t).value() == if boosts@.contains(t) {
                boosted_value(old(self).get(t).value() as int)
            } else {
                old(self).get(t).value() as int
            },
    {
        proof {
            assert(boosts@.contains(AbilityScoreType::Strength) ==> old(self).get(AbilityScoreType::Strength).value() < u32::MAX);
            assert(boosts@.contains(AbilityScoreType::Dexterity) ==> old(self).get(AbilityScoreType::Dexterity).value() < u32::MAX);
            assert(boosts@.contains(AbilityScoreType::Constitution) ==> old(self).get(AbilityScoreType::Constitution).value() < u32::MAX);
            assert(boosts@.contains(AbilityScoreType::Intelligence) ==> old(self).get(AbilityScoreType::Intelligence).value() < u32::MAX);
            assert(boosts@.contains(AbilityScoreType::Wisdom) ==> old(self).get(AbilityScoreType::Wisdom).value() < u32::MAX);
            assert(boosts@.contains(AbilityScoreType::Charisma) ==> old(self).get(AbilityScoreType::Charisma).value() < u32::MAX);
        }
        if boosts.contains(AbilityScoreType::Strength) {
            self.strength.boost();
        }
        if boosts.contains(AbilityScoreType::Dexterity) {
            self.dexterity.boost();
        }
        if boosts.contains(AbilityScoreType::Constitution) {
            self.constitution.boost();
        }
        if boosts.contains(AbilityScoreType::Intelligence) {
            self.intelligence.boost();
        }
        if boosts.contains(AbilityScoreType::Wisdom) {
            self.wisdom.boost();
        }
        if boosts.contains(AbilityScoreType::Charisma) {
            self.charisma.boost();
        }
    }

    #[verifier::when_used_as_spec(spec_get)]
    pub fn get(&self, ability_score: AbilityScoreType) -> (r: AbilityScore)
        ensures
            r == self.get(ability_score),
    {
        match ability_score {
            AbilityScoreType::Strength => self.strength,
            AbilityScoreType::Dexterity => self.dexterity,
            AbilityScoreType::Constitution => self.constitution,
            AbilityScoreType::Intelligence => self.intelligence,
            AbilityScoreType::Wisdom => self.wisdom,
            AbilityScoreType::Charisma => self.charisma,
        }
    }
}

} // verus!
