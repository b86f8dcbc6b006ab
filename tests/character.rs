use character_sheet::{
    AbilityBoostChoice, AbilityScoreType, AbilityTypeSet, Ancestry, Background, BoostError,
    Character, Class, Size,
};

fn general_selections() -> Vec<AbilityScoreType> {
    vec![
        AbilityScoreType::Strength,
        AbilityScoreType::Constitution,
        AbilityScoreType::Dexterity,
        AbilityScoreType::Wisdom,
    ]
}

fn bob_ancestry() -> Ancestry {
    Ancestry::new(
        "Bob".to_string(),
        8,
        Size::Medium,
        30,
        vec![
            AbilityBoostChoice::predetermined(AbilityScoreType::Strength),
            AbilityBoostChoice::predetermined(AbilityScoreType::Constitution),
            AbilityBoostChoice::free(),
        ],
    )
}

fn restricted_background() -> Background {
    Background::new(
        "Bob".to_string(),
        "".to_string(),
        vec![
            AbilityBoostChoice::restricted(AbilityTypeSet::from_types(&vec![
                AbilityScoreType::Strength,
                AbilityScoreType::Constitution,
            ])),
            AbilityBoostChoice::free(),
        ],
    )
}

#[test]
fn class_stats() {
    let class = Class::new("Bob".to_string(), AbilityScoreType::Strength, 10);
    let ancestry = Ancestry::new("Bob".to_string(), 0, Size::Medium, 30, vec![]);
    let background = Background::new("Bob".to_string(), "".to_string(), vec![]);
    let character = Character::new(
        "Bob",
        &class,
        &ancestry,
        &vec![],
        &background,
        &vec![],
        &general_selections(),
    )
    .unwrap();

    assert_eq!(character.name(), "Bob");
    assert_eq!(character.level(), 1);
    assert_eq!(character.hp().max(), 10);
    assert_eq!(character.strength().value(), 14);
    assert_eq!(character.dexterity().value(), 12);
    assert_eq!(character.constitution().value(), 12);
    assert_eq!(character.intelligence().value(), 10);
    assert_eq!(character.wisdom().value(), 12);
    assert_eq!(character.charisma().value(), 10);
}

#[test]
fn ancestry_stats() {
    let class = Class::new("Bob".to_string(), AbilityScoreType::Strength, 10);
    let ancestry = bob_ancestry();
    let background = Background::new("Bob".to_string(), "".to_string(), vec![]);
    let character = Character::new(
        "Bob",
        &class,
        &ancestry,
        &vec![AbilityScoreType::Dexterity],
        &background,
        &vec![],
        &general_selections(),
    )
    .unwrap();

    assert_eq!(character.speed(), ancestry.speed());
    assert_eq!(character.size(), ancestry.size());
    assert_eq!(character.strength().value(), 16);
    assert_eq!(character.dexterity().value(), 14);
    assert_eq!(character.constitution().value(), 14);
    assert_eq!(character.intelligence().value(), 10);
    assert_eq!(character.wisdom().value(), 12);
    assert_eq!(character.charisma().value(), 10);
}

#[test]
fn background_stats() {
    let class = Class::new("Bob".to_string(), AbilityScoreType::Strength, 10);
    let ancestry = bob_ancestry();
    let background = restricted_background();
    let character = Character::new(
        "Bob",
        &class,
        &ancestry,
        &vec![AbilityScoreType::Dexterity],
        &background,
        &vec![AbilityScoreType::Strength, AbilityScoreType::Constitution],
        &general_selections(),
    )
    .unwrap();

    assert_eq!(character.strength().value(), 18);
    assert_eq!(character.dexterity().value(), 14);
    assert_eq!(character.constitution().value(), 16);
    assert_eq!(character.intelligence().value(), 10);
    assert_eq!(character.wisdom().value(), 12);
    assert_eq!(character.charisma().value(), 10);
}

#[test]
fn level_up() {
    let class = Class::new("Bob".to_string(), AbilityScoreType::Strength, 10);
    let ancestry = bob_ancestry();
    let background = restricted_background();
    let mut character = Character::new(
        "Bob",
        &class,
        &ancestry,
        &vec![AbilityScoreType::Dexterity],
        &background,
        &vec![AbilityScoreType::Strength, AbilityScoreType::Constitution],
        &general_selections(),
    )
    .unwrap();

    character.level_up();

    assert_eq!(character.level(), 2);
    assert_eq!(character.hp().max(), 28);
}

#[test]
fn build_with_empty_background_has_expected_scores_and_hp() {
    let class = Class::new("Fighter".to_string(), AbilityScoreType::Strength, 10);
    let ancestry = bob_ancestry();
    let background = Background::new("Farmhand".to_string(), "".to_string(), vec![]);
    let character = Character::new(
        "Ada",
        &class,
        &ancestry,
        &vec![AbilityScoreType::Dexterity],
        &background,
        &vec![],
        &general_selections(),
    )
    .unwrap();

    assert_eq!(character.strength().value(), 16);
    assert_eq!(character.dexterity().value(), 14);
    assert_eq!(character.constitution().value(), 14);
    assert_eq!(character.wisdom().value(), 12);
    assert_eq!(character.intelligence().value(), 10);
    assert_eq!(character.charisma().value(), 10);
    assert_eq!(character.hp().max(), 18);
    assert_eq!(character.hp().current(), 18);
    assert_eq!(character.hp().temp(), 0);
    assert_eq!(character.description(), "");
    assert_eq!(character.class().name(), "Fighter");
    assert_eq!(character.ancestry().name(), "Bob");
    assert_eq!(character.background().name(), "Farmhand");
    assert_eq!(
        character.abliity_scores().get(AbilityScoreType::Strength).value(),
        16
    );
}

#[test]
fn level_up_keeps_current_and_temp() {
    let class = Class::new("Fighter".to_string(), AbilityScoreType::Strength, 10);
    let ancestry = bob_ancestry();
    let background = Background::new("Farmhand".to_string(), "".to_string(), vec![]);
    let mut character = Character::new(
        "Ada",
        &class,
        &ancestry,
        &vec![AbilityScoreType::Dexterity],
        &background,
        &vec![],
        &general_selections(),
    )
    .unwrap();

    character.level_up();

    assert_eq!(character.level(), 2);
    assert_eq!(character.hp().max(), 28);
    assert_eq!(character.hp().current(), 18);
    assert_eq!(character.hp().temp(), 0);
}

#[test]
fn set_description_replaces_text() {
    let class = Class::new("Fighter".to_string(), AbilityScoreType::Strength, 10);
    let ancestry = Ancestry::new("Elf".to_string(), 6, Size::Medium, 30, vec![]);
    let background = Background::new("Farmhand".to_string(), "".to_string(), vec![]);
    let mut character =
        Character::new("Ada", &class, &ancestry, &vec![], &background, &vec![], &general_selections())
            .unwrap();
    character.set_description("Tall".to_string());
    assert_eq!(character.description(), "Tall");
    assert_eq!(character.name(), "Ada");
}

#[test]
fn build_reports_ancestry_error_first() {
    let class = Class::new("Fighter".to_string(), AbilityScoreType::Strength, 10);
    let ancestry = bob_ancestry();
    let background = restricted_background();
    let result = Character::new(
        "Ada",
        &class,
        &ancestry,
        &vec![],
        &background,
        &vec![AbilityScoreType::Wisdom, AbilityScoreType::Dexterity],
        &vec![AbilityScoreType::Strength],
    );
    assert_eq!(result.err(), Some(BoostError::TooFewChoices));
}

#[test]
fn build_reports_background_error_before_general() {
    let class = Class::new("Fighter".to_string(), AbilityScoreType::Strength, 10);
    let ancestry = bob_ancestry();
    let background = restricted_background();
    let result = Character::new(
        "Ada",
        &class,
        &ancestry,
        &vec![AbilityScoreType::Dexterity],
        &background,
        &vec![AbilityScoreType::Wisdom, AbilityScoreType::Dexterity],
        &vec![AbilityScoreType::Strength],
    );
    assert_eq!(
        result.err(),
        Some(BoostError::InvalidChoice {
            choice: AbilityScoreType::Wisdom,
            options: AbilityTypeSet::from_types(&vec![
                AbilityScoreType::Strength,
                AbilityScoreType::Constitution
            ]),
        })
    );
}

#[test]
fn build_reports_general_error() {
    let class = Class::new("Fighter".to_string(), AbilityScoreType::Strength, 10);
    let ancestry = bob_ancestry();
    let background = restricted_background();
    let result = Character::new(
        "Ada",
        &class,
        &ancestry,
        &vec![AbilityScoreType::Dexterity],
        &background,
        &vec![AbilityScoreType::Strength, AbilityScoreType::Dexterity],
        &vec![
            AbilityScoreType::Strength,
            AbilityScoreType::Strength,
            AbilityScoreType::Dexterity,
            AbilityScoreType::Wisdom,
        ],
    );
    assert_eq!(result.err(), Some(BoostError::DuplicateBoost(AbilityScoreType::Strength)));
}

#[test]
fn class_accessors() {
    let class = Class::new("Wizard".to_string(), AbilityScoreType::Intelligence, 6);
    assert_eq!(class.name(), "Wizard");
    assert_eq!(class.key_ability(), AbilityScoreType::Intelligence);
    assert_eq!(class.hp_increment(), 6);
}
