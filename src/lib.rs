pub mod ability_score;
pub mod ancestry;
pub mod background;
pub mod boost_choice;
pub mod character;
pub mod class;
pub mod health;
pub mod resolution;

pub use ability_score::{AbilityScore, AbilityScoreSet, AbilityScoreType, AbilityTypeSet};
pub use ancestry::Ancestry;
pub use background::Background;
pub use boost_choice::{
    AbilityBoostChoice, AbilityBoostChoiceSet, AbilityBoostFree, AbilityBoostRestricted, BoostError,
};
pub use character::{Character, Size};
pub use class::Class;
pub use health::Health;
