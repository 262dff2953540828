use fuji_ptp_core::client::{
    numbered_name, parse_slot, test_slot_recipe, test_values_recipe,
};
use fuji_ptp_core::recipe::{EffectStrength, FilmSimulation, GrainEffect};

#[test]
fn slot_arguments() {
    assert_eq!(parse_slot("C7"), Some(7));
    assert_eq!(parse_slot("3"), Some(3));
    assert_eq!(parse_slot("C+2"), Some(2));
    assert_eq!(parse_slot("C007"), Some(7));
    assert_eq!(parse_slot("C8"), None);
    assert_eq!(parse_slot("C0"), None);
    assert_eq!(parse_slot("C"), None);
    assert_eq!(parse_slot(""), None);
    assert_eq!(parse_slot("CC1"), None);
    assert_eq!(parse_slot("c1"), None);
    assert_eq!(parse_slot("300"), None);
    assert_eq!(parse_slot("C-1"), None);
    assert_eq!(parse_slot("+"), None);
}

#[test]
fn numbered_names() {
    assert_eq!(numbered_name(0, ""), "1");
    assert_eq!(numbered_name(2, "Portra"), "3 Portra");
    assert_eq!(numbered_name(9, "x"), "10 x");
}

#[test]
fn test_recipes() {
    let r = test_slot_recipe(7);
    assert_eq!(r.name, "TEST C7");
    let r = test_values_recipe(3);
    assert_eq!(r.name, "TEST VALUES C3");
    assert_eq!(r.film_simulation, FilmSimulation::Velvia);
    assert_eq!(r.grain_effect, GrainEffect::StrongSmall);
    assert_eq!(r.color_chrome, EffectStrength::Weak);
    assert_eq!((r.highlight, r.shadow, r.color, r.sharpness, r.clarity), (10, -10, 20, 10, 10));
    assert_eq!(r.noise_reduction, -1);
}
