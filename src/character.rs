use vstd::prelude::*;

use crate::ability_score::{score_after, AbilityScore, AbilityScoreSet, AbilityScoreType, AbilityTypeSet};
use crate::ancestry::Ancestry;
use crate::background::Background;
use crate::boost_choice::{resolve, AbilityBoostChoice, AbilityBoostChoiceSet, AbilityBoostFree, BoostError};
use crate::class::Class;
use crate::health::Health;

verus! {

/// The size category of a creature.
#[derive(Debug, Clone, Copy, PartialEq, Eq, Structural, PartialOrd, Ord)]
pub enum Size {
    Tiny,
    Small,
    Medium,
    Large,
    Huge,
    Gargantuan,
}

/// The four free boost slots that every character receives.
pub open spec fn general_boost_slots() -> Seq<AbilityBoostChoice> {
    seq![
        AbilityBoostChoice::Free(AbilityBoostFree {}),
        AbilityBoostChoice::Free(AbilityBoostFree {}),
        AbilityBoostChoice::Free(AbilityBoostFree {}),
        AbilityBoostChoice::Free(AbilityBoostFree {}),
    ]
}

/// The first resolution error of a build, taking the ancestry's selections
/// first, then the background's, then the general ones; `None` when all three
/// resolve.
pub open spec fn build_error(
    ancestry: Ancestry,
    ancestry_boost_choices: Seq<AbilityScoreType>,
    background: Background,
    background_boost_choices: Seq<AbilityScoreType>,
    extra_boost_choices: Seq<AbilityScoreType>,
) -> Option<BoostError> {
    let a = resolve(ancestry.boost_slots(), ancestry_boost_choices);
    let b = resolve(background.boost_slots(), background_boost_choices);
    let g = resolve(general_boost_slots(), extra_boost_choices);
    if a is Err {
        Some(a->Err_0)
    } else if b is Err {
        Some(b->Err_0)
    } else if g is Err {
        Some(g->Err_0)
    } else {
        None
    }
}

/// The boost sets a successful build applies, in order: the class's key
/// ability, then the resolved ancestry, background and general boosts.
pub open spec fn build_boosts(
    class: Class,
    ancestry: Ancestry,
    ancestry_boost_choices: Seq<AbilityScoreType>,
    background: Background,
    background_boost_choices: Seq<AbilityScoreType>,
    extra_boost_choices: Seq<AbilityScoreType>,
) -> Seq<Set<AbilityScoreType>> {
    seq![
        set![class.key_ability()],
        resolve(ancestry.boost_slots(), ancestry_boost_choices)->Ok_0,
        resolve(background.boost_slots(), background_boost_choices)->Ok_0,
        resolve(general_boost_slots(), extra_boost_choices)->Ok_0,
    ]
}

/// A character built from a class, an ancestry and a background.
pub struct Character<'class, 'ancestry, 'background> {
    name: String,
    description: String,
    class: &'class Class,
    ancestry: &'ancestry Ancestry,
    background: &'background Background,
    level: u32,
    hp: Health,
    speed: u32,
    size: Size,
    ability_scores: AbilityScoreSet,
}

impl<'class, 'ancestry, 'background> Character<'class, 'ancestry, 'background> {
    pub closed spec fn name_view(&self) -> Seq<char> {
        self.name@
    }

    pub closed spec fn description_view(&self) -> Seq<char> {
        self.description@
    }

    pub closed spec fn class_spec(&self) -> Class {
        *self.class
    }

    pub closed spec fn ancestry_spec(&self) -> Ancestry {
        *self.ancestry
    }

    pub closed spec fn background_spec(&self) -> Background {
        *self.background
    }

    pub closed spec fn hp_spec(&self) -> Health {
        self.hp
    }

    pub closed spec fn scores_spec(&self) -> AbilityScoreSet {
        self.ability_scores
    }

    pub closed spec fn spec_level(&self) -> u32 {
        self.level
    }

    pub closed spec fn spec_speed(&self) -> u32 {
        self.speed
    }

    pub closed spec fn spec_size(&self) -> Size {
        self.size
    }

    /// Builds a character at level 1. The ancestry, background and general
    /// boost slots are resolved against their selections in that order, and the
    /// first failure is returned. On success the scores are 10 boosted by the
    /// class's key ability and the three resolved sets, and the hit points are
    /// the class's increment plus the ancestry's base.
    pub fn new(
        name: &str,
        class: &'class Class,
        ancestry: &'ancestry Ancestry,
        ancestry_boost_choices: &Vec<AbilityScoreType>,
        background: &'background Background,
        background_boost_choices: &Vec<AbilityScoreType>,
        extra_boost_choices: &Vec<AbilityScoreType>,
    ) -> (r: Result<Character<'class, 'ancestry, 'background>, BoostError>)
        requires
            class.hp_increment() + ancestry.base_hp() <= u32::MAX,
        ensures
            ({
                let err = build_error(
                    *ancestry,
                    ancestry_boost_choices@,
                    *background,
                    background_boost_choices@,
                    extra_boost_choices@,
                );
                match r {
                    Err(e) => err == Some(e),
                    Ok(c) => {
                        &&& err is None
                        &&& c.name_view() == name@
                        &&& c.description_view() == Seq::<char>::empty()
                        &&& c.class_spec() == *class
                        &&& c.ancestry_spec() == *ancestry
                        &&& c.background_spec() == *background
                        &&& c.level() == 1
                        &&& c.hp_spec().max() == class.hp_increment() + ancestry.base_hp()
                        &&& c.hp_spec().current() == c.hp_spec().max()
                        &&& c.hp_spec().temp() == 0
                        &&& c.speed() == ancestry.speed()
                        &&& c.size() == ancestry.size()
                        &&& forall|t: AbilityScoreType| #[trigger]
                            c.scores_spec().get(t).value() == score_after(
                                build_boosts(
                                    *class,
                                    *ancestry,
                                    ancestry_boost_choices@,
                                    *background,
                                    background_boost_choices@,
                                    extra_boost_choices@,
                                ),
                                t,
                            )
                    },
                }
            }),
    {
        let extra_boosts: Vec<AbilityBoostChoice> = vec![
            AbilityBoostChoice::free(),
            AbilityBoostChoice::free(),
            AbilityBoostChoice::free(),
            AbilityBoostChoice::free(),
        ];
        assert(extra_boosts@ =~= general_boost_slots());
        let ancestry_boosts = match ancestry.ability_boosts().apply_choices(
            ancestry_boost_choices,
        ) {
            Ok(s) => s,
            Err(e) => {
                return Err(e);
            },
        };
        let background_boosts = match background.ability_boosts().apply_choices(
            background_boost_choices,
        ) {
            Ok(s) => s,
            Err(e) => {
                return Err(e);
            },
        };
        let extra = match extra_boosts.apply_choices(extra_boost_choices) {
            Ok(s) => s,
            Err(e) => {
                return Err(e);
            },
        };
        let mut key = AbilityTypeSet::new();
        key.insert(class.key_ability());
        let boosts: Vec<AbilityTypeSet> = vec![key, ancestry_boosts, background_boosts, extra];
        let ability_scores = AbilityScoreSet::with_boosts(&boosts);
        proof {
            let views = crate::ability_score::set_views(boosts@);
            let expected = build_boosts(
                *class,
                *ancestry,
                ancestry_boost_choices@,
                *background,
                background_boost_choices@,
                extra_boost_choices@,
            );
            assert(set![class.key_ability()] =~= Set::<AbilityScoreType>::empty().insert(
                class.key_ability(),
            ));
            assert(views =~= expected);
        }
        Ok(Character {
            name: name.to_owned(),
            description: String::new(),
            class,
            ancestry,
            background,
            level: 1,
            hp: Health::new(class.hp_increment() + ancestry.base_hp()),
            speed: ancestry.speed(),
            size: ancestry.size(),
            ability_scores,
        })
    }

    pub fn name(&self) -> (r: &str)
        ensures
            r@ == self.name_view(),
    {
        self.name.as_str()
    }

    pub fn description(&self) -> (r: &str)
        ensures
            r@ == self.description_view(),
    {
        self.description.as_str()
    }

    pub fn set_description(&mut self, description: String)
        ensures
            final(self).description_view() == description@,
            final(self).name_view() == old(self).name_view(),
            final(self).level() == old(self).level(),
            final(self).hp_spec() == old(self).hp_spec(),
            final(self).scores_spec() == old(self).scores_spec(),
    {
        self.description = description;
    }

    pub fn class(&self) -> (r: &Class)
        ensures
            *r == self.class_spec(),
    {
        self.class
    }

    pub fn ancestry(&self) -> (r: &Ancestry)
        ensures
            *r == self.ancestry_spec(),
    {
        self.ancestry
    }

    pub fn background(&self) -> (r: &Background)
        ensures
            *r == self.background_spec(),
    {
        self.background
    }

    #[verifier::when_used_as_spec(spec_level)]
    pub fn level(&self) -> (r: u32)
        ensures
            r == self.level(),
    {
        self.level
    }

    pub fn hp(&self) -> (r: &Health)
        ensures
            *r == self.hp_spec(),
    {
        &self.hp
    }

    #[verifier::when_used_as_spec(spec_speed)]
    pub fn speed(&self) -> (r: u32)
        ensures
            r == self.speed(),
    {
        self.speed
    }

    #[verifier::when_used_as_spec(spec_size)]
    pub fn size(&self) -> (r: Size)
        ensures
            r == self.size(),
    {
        self.size
    }

    pub fn abliity_scores(&self) -> (r: &AbilityScoreSet)
        ensures
            *r == self.scores_spec(),
    {
        &self.ability_scores
    }

    pub fn strength(&self) -> (r: AbilityScore)
        ensures
            r == self.scores_spec().get(AbilityScoreType::Strength),
    {
        self.ability_scores.get(AbilityScoreType::Strength)
    }

    pub fn dexterity(&self) -> (r: AbilityScore)
        ensures
            r == self.scores_spec().get(AbilityScoreType::Dexterity),
    {
        self.ability_scores.get(AbilityScoreType::Dexterity)
    }

    pub fn constitution(&self) -> (r: AbilityScore)
        ensures
            r == self.scores_spec().get(AbilityScoreType::Constitution),
    {
        self.ability_scores.get(AbilityScoreType::Constitution)
    }

    pub fn intelligence(&self) -> (r: AbilityScore)
        ensures
            r == self.scores_spec().get(AbilityScoreType::Intelligence),
    {
        self.ability_scores.get(AbilityScoreType::Intelligence)
    }

    pub fn wisdom(&self) -> (r: AbilityScore)
        ensures
            r == self.scores_spec().get(AbilityScoreType::Wisdom),
    {
        self.ability_scores.get(AbilityScoreType::Wisdom)
    }

    pub fn charisma(&self) -> (r: AbilityScore)
        ensures
            r == self.scores_spec().get(AbilityScoreType::Charisma),
    {
        self.ability_scores.get(AbilityScoreType::Charisma)
    }

    /// Goes up one level: the maximum hit points grow by the class's increment,
    /// the current and temporary hit points stay as they are.
    pub fn level_up(&mut self)
        requires
            old(self).level() < u32::MAX,
            old(self).hp_spec().max() + old(self).class_spec().hp_increment() <= u32::MAX,
        ensures
            final(self).level() == old(self).level() + 1,
            final(self).hp_spec().max() == old(self).hp_spec().max() + old(
                self,
            ).class_spec().hp_increment(),
            final(self).hp_spec().current() == old(self).hp_spec().current(),
            final(self).hp_spec().temp() == old(self).hp_spec().temp(),
            final(self).class_spec() == old(self).class_spec(),
            final(self).scores_spec() == old(self).scores_spec(),
            final(self).name_view() == old(self).name_view(),
            final(self).speed() == old(self).speed(),
            final(self).size() == old(self).size(),
    {
        self.level = self.level + 1;
        self.hp.increase_max(self.class.hp_increment());
    }
}

} // verus!
