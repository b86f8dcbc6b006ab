use character_sheet::{
    AbilityBoostChoice, AbilityBoostChoiceSet, AbilityScoreType, AbilityTypeSet, BoostError,
};

fn set_of(types: Vec<AbilityScoreType>) -> AbilityTypeSet {
    AbilityTypeSet::from_types(&types)
}

#[test]
fn exact_selections_give_one_ability_per_slot() {
    let slots = vec![
        AbilityBoostChoice::free(),
        AbilityBoostChoice::predetermined(AbilityScoreType::Wisdom),
        AbilityBoostChoice::restricted(set_of(vec![
            AbilityScoreType::Intelligence,
            AbilityScoreType::Charisma,
        ])),
        AbilityBoostChoice::free(),
    ];
    let result = slots
        .apply_choices(&vec![
            AbilityScoreType::Strength,
            AbilityScoreType::Charisma,
            AbilityScoreType::Dexterity,
        ])
        .unwrap();
    assert_eq!(
        result,
        set_of(vec![
            AbilityScoreType::Strength,
            AbilityScoreType::Wisdom,
            AbilityScoreType::Charisma,
            AbilityScoreType::Dexterity,
        ])
    );
}

#[test]
fn no_slots_and_no_selections_give_empty_set() {
    let slots: Vec<AbilityBoostChoice> = vec![];
    assert_eq!(slots.apply_choices(&vec![]), Ok(AbilityTypeSet::new()));
}

#[test]
fn no_slots_with_a_selection_is_too_many() {
    let slots: Vec<AbilityBoostChoice> = vec![];
    assert_eq!(
        slots.apply_choices(&vec![AbilityScoreType::Strength]),
        Err(BoostError::TooManyChoices)
    );
}

#[test]
fn fewer_selections_than_slots_is_too_few() {
    let slots = vec![
        AbilityBoostChoice::free(),
        AbilityBoostChoice::predetermined(AbilityScoreType::Wisdom),
        AbilityBoostChoice::free(),
    ];
    assert_eq!(
        slots.apply_choices(&vec![AbilityScoreType::Strength]),
        Err(BoostError::TooFewChoices)
    );
}

#[test]
fn more_selections_than_slots_is_too_many() {
    let slots = vec![
        AbilityBoostChoice::free(),
        AbilityBoostChoice::predetermined(AbilityScoreType::Wisdom),
    ];
    assert_eq!(
        slots.apply_choices(&vec![AbilityScoreType::Strength, AbilityScoreType::Dexterity]),
        Err(BoostError::TooManyChoices)
    );
}

#[test]
fn two_fixed_slots_on_one_ability_are_a_duplicate() {
    let slots = vec![
        AbilityBoostChoice::predetermined(AbilityScoreType::Charisma),
        AbilityBoostChoice::predetermined(AbilityScoreType::Charisma),
    ];
    assert_eq!(
        slots.apply_choices(&vec![]),
        Err(BoostError::DuplicateBoost(AbilityScoreType::Charisma))
    );
}

#[test]
fn two_free_slots_on_one_ability_are_a_duplicate() {
    let slots = vec![AbilityBoostChoice::free(), AbilityBoostChoice::free()];
    assert_eq!(
        slots.apply_choices(&vec![AbilityScoreType::Dexterity, AbilityScoreType::Dexterity]),
        Err(BoostError::DuplicateBoost(AbilityScoreType::Dexterity))
    );
}

#[test]
fn restricted_after_fixed_slot_on_same_ability_is_a_duplicate() {
    let slots = vec![
        AbilityBoostChoice::predetermined(AbilityScoreType::Strength),
        AbilityBoostChoice::restricted(set_of(vec![
            AbilityScoreType::Strength,
            AbilityScoreType::Constitution,
        ])),
    ];
    assert_eq!(
        slots.apply_choices(&vec![AbilityScoreType::Strength]),
        Err(BoostError::DuplicateBoost(AbilityScoreType::Strength))
    );
}

#[test]
fn free_slot_before_fixed_slot_on_same_ability_is_a_duplicate() {
    let slots = vec![
        AbilityBoostChoice::free(),
        AbilityBoostChoice::predetermined(AbilityScoreType::Intelligence),
    ];
    assert_eq!(
        slots.apply_choices(&vec![AbilityScoreType::Intelligence]),
        Err(BoostError::DuplicateBoost(AbilityScoreType::Intelligence))
    );
}

#[test]
fn first_error_in_slot_order_wins() {
    let slots = vec![
        AbilityBoostChoice::predetermined(AbilityScoreType::Strength),
        AbilityBoostChoice::predetermined(AbilityScoreType::Strength),
        AbilityBoostChoice::free(),
    ];
    assert_eq!(
        slots.apply_choices(&vec![]),
        Err(BoostError::DuplicateBoost(AbilityScoreType::Strength))
    );
}
