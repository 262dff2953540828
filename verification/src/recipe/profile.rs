use vstd::prelude::*;
use super::{Recipe, RecipeView};

verus! {

/// The seven custom recipes C1-C7 of a camera, under a name.
pub struct Profile {
    pub name: String,
    pub recipes: [Recipe; 7],
}

pub struct ProfileView {
    pub name: Seq<char>,
    pub recipes: Seq<RecipeView>,
}

impl View for Profile {
    type V = ProfileView;

    open spec fn view(&self) -> ProfileView {
        ProfileView { name: self.name@, recipes: self.recipes@.map_values(|r: Recipe| r@) }
    }
}

impl Profile {
    pub fn new(name: String, recipes: [Recipe; 7]) -> (p: Self)
        ensures
            p.name == name,
            p.recipes == recipes,
    {
        Self { name, recipes }
    }
}

} // verus!
