use crate::models::gif::{Gif, GifView, RecipeStep, RecipeStepView};
use crate::models::image::{Image, ImageView};
use crate::models::recipe::{image_views, ingredient_views, step_views};
use crate::models::recipe::{Ingredient, IngredientUnit, IngredientView, Nutrition, Recipe};
use crate::models::recipe::{RecipeContent, RecipeView};
use vstd::prelude::*;

verus! {

/// A sample image record: ten by ten pixels, titled "hello 1".
pub open spec fn sample_image(path: Seq<char>) -> ImageView {
    ImageView {
        id: Seq::empty(),
        path,
        width: 10,
        height: 10,
        title: "hello 1"@,
        created_at: Seq::empty(),
    }
}

/// A sample step that has only a description.
pub open spec fn sample_step(description: Seq<char>) -> RecipeStepView {
    RecipeStepView {
        id: Seq::empty(),
        description,
        gif: GifView { path: Seq::empty(), width: 0, height: 0, title: Seq::empty() },
        created_at: Seq::empty(),
    }
}

/// The sample recipe: salmon with potatoes.
pub open spec fn sample_recipe() -> RecipeView {
    RecipeView {
        id: Seq::empty(),
        content: RecipeContent {
            name: "Salmon"@,
            images: seq![sample_image("1"@), sample_image("2"@)],
            preparation_time_in_minutes: 20,
            nutrition: Nutrition { calories: 10, fat: 20, carbs: 5, fiber: 45, protein: 12 },
            num_of_likes: 0,
            num_of_views: 0,
            ingredients: seq![
                IngredientView { name: "Salmon"@, amount: 250, unit: IngredientUnit::g },
                IngredientView { name: "Potatos"@, amount: 125, unit: IngredientUnit::g },
                IngredientView { name: "Salt"@, amount: 5, unit: IngredientUnit::g },
            ],
            steps: seq![
                sample_step("Slice the salmon."@),
                sample_step("Cook it with the potatoes."@),
                sample_step("Enjoy."@),
            ],
        },
        created_at: Seq::empty(),
    }
}

fn image(path: &str) -> (r: Image)
    ensures
        r@ == sample_image(path@),
{
    Image {
        _id: String::new(),
        path: path.to_owned(),
        width: 10,
        height: 10,
        title: "hello 1".to_owned(),
        created_at: String::new(),
    }
}

fn step(description: &str) -> (r: RecipeStep)
    ensures
        r@ == sample_step(description@),
{
    RecipeStep {
        _id: String::new(),
        description: description.to_owned(),
        gif: Gif { path: String::new(), width: 0, height: 0, title: String::new() },
        created_at: String::new(),
    }
}

fn ingredient(name: &str, amount: i32) -> (r: Ingredient)
    ensures
        r@ == (IngredientView { name: name@, amount: amount as int, unit: IngredientUnit::g }),
{
    Ingredient { name: name.to_owned(), amount, unit: IngredientUnit::g }
}

/// A sample recipe that has not been persisted: no identifier, no creation time.
pub fn get_recipe() -> (recipe: Recipe)
    ensures
        recipe@ == sample_recipe(),
{
    let mut images: Vec<Image> = Vec::new();
    images.push(image("1"));
    images.push(image("2"));
    let mut ingredients: Vec<Ingredient> = Vec::new();
    ingredients.push(ingredient("Salmon", 250));
    ingredients.push(ingredient("Potatos", 125));
    ingredients.push(ingredient("Salt", 5));
    let mut steps: Vec<RecipeStep> = Vec::new();
    steps.push(step("Slice the salmon."));
    steps.push(step("Cook it with the potatoes."));
    steps.push(step("Enjoy."));
    let recipe = Recipe {
        _id: String::new(),
        name: "Salmon".to_owned(),
        images,
        preparation_time_in_minutes: 20,
        nutrition: Nutrition { calories: 10, fat: 20, carbs: 5, fiber: 45, protein: 12 },
        num_of_views: 0,
        num_of_likes: 0,
        ingredients,
        steps,
        created_at: String::new(),
    };
    assert(image_views(recipe.images@) =~= sample_recipe().content.images);
    assert(ingredient_views(recipe.ingredients@) =~= sample_recipe().content.ingredients);
    assert(step_views(recipe.steps@) =~= sample_recipe().content.steps);
    recipe
}

} // verus!
