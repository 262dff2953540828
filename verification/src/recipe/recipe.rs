use vstd::prelude::*;
use super::{
    DynamicRange, EffectStrength, FilmSimulation, GrainEffect, WhiteBalance, WhiteBalanceMode,
};

verus! {

/// `Recipe` is the Fujifilm custom recipe domain model.
///
/// The dial settings (highlight, shadow, color, sharpness, clarity, exposure and the
/// monochrome warm/cool and magenta/green shifts) are held in tenths of a step, the unit in
/// which the camera stores them: `15` is +1.5. `i16::MIN` is a value that no dial holds;
/// writing a recipe that carries it is refused.
pub struct Recipe {
    pub name: String,

    pub film_simulation: FilmSimulation,
    pub dynamic_range: DynamicRange,
    pub grain_effect: GrainEffect,

    pub smooth_skin: EffectStrength,
    pub color_chrome: EffectStrength,
    pub color_chrome_fx_blue: EffectStrength,

    pub white_balance: WhiteBalance,

    pub highlight: i16,
    pub shadow: i16,
    pub color: i16,
    pub sharpness: i16,
    pub noise_reduction: i8,
    pub clarity: i16,

    pub exposure: i16,
    pub dynamic_range_priority: i32,

    pub monochrome_wc: i16,
    pub monochrome_mg: i16,
}

/// A recipe as a mathematical value: its name is a sequence of characters.
pub struct RecipeView {
    pub name: Seq<char>,
    pub film_simulation: FilmSimulation,
    pub dynamic_range: DynamicRange,
    pub grain_effect: GrainEffect,
    pub smooth_skin: EffectStrength,
    pub color_chrome: EffectStrength,
    pub color_chrome_fx_blue: EffectStrength,
    pub white_balance: WhiteBalance,
    pub highlight: i16,
    pub shadow: i16,
    pub color: i16,
    pub sharpness: i16,
    pub noise_reduction: i8,
    pub clarity: i16,
    pub exposure: i16,
    pub dynamic_range_priority: i32,
    pub monochrome_wc: i16,
    pub monochrome_mg: i16,
}

impl View for Recipe {
    type V = RecipeView;

    open spec fn view(&self) -> RecipeView {
        RecipeView {
            name: self.name@,
            film_simulation: self.film_simulation,
            dynamic_range: self.dynamic_range,
            grain_effect: self.grain_effect,
            smooth_skin: self.smooth_skin,
            color_chrome: self.color_chrome,
            color_chrome_fx_blue: self.color_chrome_fx_blue,
            white_balance: self.white_balance,
            highlight: self.highlight,
            shadow: self.shadow,
            color: self.color,
            sharpness: self.sharpness,
            noise_reduction: self.noise_reduction,
            clarity: self.clarity,
            exposure: self.exposure,
            dynamic_range_priority: self.dynamic_range_priority,
            monochrome_wc: self.monochrome_wc,
            monochrome_mg: self.monochrome_mg,
        }
    }
}

/// The recipe that `Recipe::new` makes: Classic Chrome, DR100, every effect off, auto white
/// balance without shift, every dial at zero.
pub open spec fn default_recipe(name: Seq<char>) -> RecipeView {
    RecipeView {
        name,
        film_simulation: FilmSimulation::ClassicChrome,
        dynamic_range: DynamicRange::Dr100,
        grain_effect: GrainEffect::Off,
        smooth_skin: EffectStrength::Off,
        color_chrome: EffectStrength::Off,
        color_chrome_fx_blue: EffectStrength::Off,
        white_balance: WhiteBalance {
            mode: WhiteBalanceMode::Auto,
            shift_r: 0,
            shift_b: 0,
            color_temperature: None,
        },
        highlight: 0,
        shadow: 0,
        color: 0,
        sharpness: 0,
        noise_reduction: 0,
        clarity: 0,
        exposure: 0,
        dynamic_range_priority: 0,
        monochrome_wc: 0,
        monochrome_mg: 0,
    }
}

impl Recipe {
    pub fn new(name: String) -> (r: Self)
        ensures
            r@ == default_recipe(name@),
    {
        Self {
            name,
            film_simulation: FilmSimulation::ClassicChrome,
            dynamic_range: DynamicRange::Dr100,
            grain_effect: GrainEffect::Off,
            smooth_skin: EffectStrength::Off,
            color_chrome: EffectStrength::Off,
            color_chrome_fx_blue: EffectStrength::Off,
            white_balance: WhiteBalance {
                mode: WhiteBalanceMode::Auto,
                shift_r: 0,
                shift_b: 0,
                color_temperature: None,
            },
            highlight: 0,
            shadow: 0,
            color: 0,
            sharpness: 0,
            noise_reduction: 0,
            clarity: 0,
            exposure: 0,
            dynamic_range_priority: 0,
            monochrome_wc: 0,
            monochrome_mg: 0,
        }
    }
}

/// A new recipe is Classic Chrome with DR100, every effect off, auto white balance without
/// shift or temperature, and every dial, High ISO NR, exposure and D-range priority at zero.
pub proof fn law_default_recipe(name: Seq<char>)
    ensures
        default_recipe(name).name == name,
        default_recipe(name).film_simulation == FilmSimulation::ClassicChrome,
        default_recipe(name).dynamic_range == DynamicRange::Dr100,
        default_recipe(name).grain_effect == GrainEffect::Off,
        default_recipe(name).smooth_skin == EffectStrength::Off,
        default_recipe(name).color_chrome == EffectStrength::Off,
        default_recipe(name).color_chrome_fx_blue == EffectStrength::Off,
        default_recipe(name).white_balance.mode == WhiteBalanceMode::Auto,
        default_recipe(name).white_balance.shift_r == 0,
        default_recipe(name).white_balance.shift_b == 0,
        default_recipe(name).white_balance.color_temperature is None,
        default_recipe(name).highlight == 0,
        default_recipe(name).shadow == 0,
        default_recipe(name).color == 0,
        default_recipe(name).sharpness == 0,
        default_recipe(name).clarity == 0,
        default_recipe(name).noise_reduction == 0,
        default_recipe(name).exposure == 0,
        default_recipe(name).dynamic_range_priority == 0,
        default_recipe(name).monochrome_wc == 0,
        default_recipe(name).monochrome_mg == 0,
{
}

} // verus!
