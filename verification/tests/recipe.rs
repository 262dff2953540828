use fuji_ptp_core::recipe::{
    DynamicRange, EffectStrength, FilmSimulation, GrainEffect, Profile, Recipe, WhiteBalanceMode,
};

#[test]
fn can_create_recipe() {
    let recipe = Recipe::new("My Recipe".to_string());

    assert_eq!(recipe.name, "My Recipe");
}

#[test]
fn new_recipe_has_defaults() {
    let r = Recipe::new(String::new());
    assert_eq!(r.film_simulation, FilmSimulation::ClassicChrome);
    assert_eq!(r.dynamic_range, DynamicRange::Dr100);
    assert_eq!(r.grain_effect, GrainEffect::Off);
    assert_eq!(r.smooth_skin, EffectStrength::Off);
    assert_eq!(r.white_balance.mode, WhiteBalanceMode::Auto);
    assert_eq!(r.white_balance.color_temperature, None);
    assert_eq!((r.highlight, r.noise_reduction, r.dynamic_range_priority), (0, 0, 0));
}

#[test]
fn profile_holds_seven_recipes() {
    let recipes: [Recipe; 7] = std::array::from_fn(|i| Recipe::new(format!("C{}", i + 1)));
    let p = Profile::new("mine".to_string(), recipes);
    assert_eq!(p.name, "mine");
    assert_eq!(p.recipes.len(), 7);
    assert_eq!(p.recipes[6].name, "C7");
}
