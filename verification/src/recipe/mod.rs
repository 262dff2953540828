pub mod dynamic_range;
pub mod effect_strength;
pub mod film_simulation;
pub mod grain_effect;
pub mod profile;
pub mod recipe;
pub mod white_balance;
pub mod white_balance_mode;

pub use dynamic_range::DynamicRange;
pub use effect_strength::EffectStrength;
pub use film_simulation::FilmSimulation;
pub use grain_effect::GrainEffect;
pub use profile::{Profile, ProfileView};
pub use recipe::{Recipe, RecipeView};
pub use white_balance::WhiteBalance;
pub use white_balance_mode::WhiteBalanceMode;
