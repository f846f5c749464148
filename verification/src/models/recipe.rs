use crate::db::{current_timestamp, fresh_object_id, key_text, object_id_hex, timestamp_text};
use crate::db::{timestamp_to_string, StoreKey, Timestamp};
use crate::models::gif::{RecipeStep, RecipeStepView};
use crate::models::image::{Image, ImageView};
use crate::models::{DocumentConvertable, ObjectConvertable};
use vstd::prelude::*;

verus! {

/// Nutrition facts of a recipe.
#[derive(Clone, Copy, Debug, PartialEq, Eq, Structural)]
pub struct Nutrition {
    pub calories: i32,
    pub fat: i32,
    pub carbs: i32,
    pub fiber: i32,
    pub protein: i32,
}

/// The unit in which an ingredient's amount is given.
#[derive(Clone, Copy, Debug, PartialEq, Eq, Structural)]
#[allow(non_camel_case_types)]
pub enum IngredientUnit {
    kg,
    g,
    mg,
    l,
    dcl,
    ml,
    tsp,
    tbsp,
}

impl IngredientUnit {
    /// The unit's name, as it is printed and parsed.
    pub open spec fn spec_name(self) -> Seq<char> {
        match self {
            IngredientUnit::kg => "kg"@,
            IngredientUnit::g => "g"@,
            IngredientUnit::mg => "mg"@,
            IngredientUnit::l => "l"@,
            IngredientUnit::dcl => "dcl"@,
            IngredientUnit::ml => "ml"@,
            IngredientUnit::tsp => "tsp"@,
            IngredientUnit::tbsp => "tbsp"@,
        }
    }

    /// The unit's name.
    pub fn name(&self) -> (s: String)
        ensures
            s@ == self.spec_name(),
    {
        match self {
            IngredientUnit::kg => "kg".to_owned(),
            IngredientUnit::g => "g".to_owned(),
            IngredientUnit::mg => "mg".to_owned(),
            IngredientUnit::l => "l".to_owned(),
            IngredientUnit::dcl => "dcl".to_owned(),
            IngredientUnit::ml => "ml".to_owned(),
            IngredientUnit::tsp => "tsp".to_owned(),
            IngredientUnit::tbsp => "tbsp".to_owned(),
        }
    }
}

impl IngredientUnit {
    /// The unit that `s` names, if it names one: names are matched exactly.
    pub fn parse(s: &str) -> (r: Option<IngredientUnit>)
        ensures
            match r {
                Some(unit) => s@ == unit.spec_name(),
                None => forall|unit: IngredientUnit| s@ != unit.spec_name(),
            },
    {
        let text = s.to_owned();
        if text == "kg".to_owned() {
            Some(IngredientUnit::kg)
        } else if text == "g".to_owned() {
            Some(IngredientUnit::g)
        } else if text == "mg".to_owned() {
            Some(IngredientUnit::mg)
        } else if text == "l".to_owned() {
            Some(IngredientUnit::l)
        } else if text == "dcl".to_owned() {
            Some(IngredientUnit::dcl)
        } else if text == "ml".to_owned() {
            Some(IngredientUnit::ml)
        } else if text == "tsp".to_owned() {
            Some(IngredientUnit::tsp)
        } else if text == "tbsp".to_owned() {
            Some(IngredientUnit::tbsp)
        } else {
            None
        }
    }
}

/// One ingredient of a recipe.
#[derive(Debug, PartialEq, Eq)]
pub struct Ingredient {
    pub name: String,
    pub amount: i32,
    pub unit: IngredientUnit,
}

pub struct IngredientView {
    pub name: Seq<char>,
    pub amount: int,
    pub unit: IngredientUnit,
}

impl View for Ingredient {
    type V = IngredientView;

    open spec fn view(&self) -> IngredientView {
        IngredientView { name: self.name@, amount: self.amount as int, unit: self.unit }
    }
}

impl Clone for Ingredient {
    fn clone(&self) -> (r: Self)
        ensures
            r == *self,
    {
        Ingredient { name: self.name.clone(), amount: self.amount, unit: self.unit }
    }
}

/// A recipe as clients see it.
#[derive(Debug, PartialEq, Eq)]
pub struct Recipe {
    pub _id: String,
    pub name: String,
    pub images: Vec<Image>,
    pub preparation_time_in_minutes: i32,
    pub nutrition: Nutrition,
    pub num_of_likes: i32,
    pub num_of_views: i32,
    pub ingredients: Vec<Ingredient>,
    pub steps: Vec<RecipeStep>,
    pub created_at: String,
}

/// What a recipe holds besides its identifier and its creation time.
pub struct RecipeContent {
    pub name: Seq<char>,
    pub images: Seq<ImageView>,
    pub preparation_time_in_minutes: int,
    pub nutrition: Nutrition,
    pub num_of_likes: int,
    pub num_of_views: int,
    pub ingredients: Seq<IngredientView>,
    pub steps: Seq<RecipeStepView>,
}

pub struct RecipeView {
    pub id: Seq<char>,
    pub content: RecipeContent,
    pub created_at: Seq<char>,
}

/// The views of a list of images, in order.
pub open spec fn image_views(images: Seq<Image>) -> Seq<ImageView> {
    images.map_values(|i: Image| i@)
}

/// The views of a list of ingredients, in order.
pub open spec fn ingredient_views(ingredients: Seq<Ingredient>) -> Seq<IngredientView> {
    ingredients.map_values(|i: Ingredient| i@)
}

/// The views of a list of steps, in order.
pub open spec fn step_views(steps: Seq<RecipeStep>) -> Seq<RecipeStepView> {
    steps.map_values(|s: RecipeStep| s@)
}

impl View for Recipe {
    type V = RecipeView;

    open spec fn view(&self) -> RecipeView {
        RecipeView {
            id: self._id@,
            content: RecipeContent {
                name: self.name@,
                images: image_views(self.images@),
                preparation_time_in_minutes: self.preparation_time_in_minutes as int,
                nutrition: self.nutrition,
                num_of_likes: self.num_of_likes as int,
                num_of_views: self.num_of_views as int,
                ingredients: ingredient_views(self.ingredients@),
                steps: step_views(self.steps@),
            },
            created_at: self.created_at@,
        }
    }
}

/// A recipe as the store keeps it.
#[derive(Debug, PartialEq, Eq)]
pub struct RecipeDocument {
    pub _id: Option<StoreKey>,
    pub name: String,
    pub images: Vec<Image>,
    pub preparation_time_in_minutes: i32,
    pub nutrition: Nutrition,
    pub num_of_likes: i32,
    pub num_of_views: i32,
    pub ingredients: Vec<Ingredient>,
    pub steps: Vec<RecipeStep>,
    pub created_at: Timestamp,
}

pub struct RecipeDocumentView {
    pub id: Option<Seq<u8>>,
    pub content: RecipeContent,
    pub created_at: int,
}

impl View for RecipeDocument {
    type V = RecipeDocumentView;

    open spec fn view(&self) -> RecipeDocumentView {
        RecipeDocumentView {
            id: match self._id {
                Some(k) => Some(k@),
                None => None,
            },
            content: RecipeContent {
                name: self.name@,
                images: image_views(self.images@),
                preparation_time_in_minutes: self.preparation_time_in_minutes as int,
                nutrition: self.nutrition,
                num_of_likes: self.num_of_likes as int,
                num_of_views: self.num_of_views as int,
                ingredients: ingredient_views(self.ingredients@),
                steps: step_views(self.steps@),
            },
            created_at: self.created_at@,
        }
    }
}

/// A copy of a list of images.
pub fn clone_images(images: &Vec<Image>) -> (r: Vec<Image>)
    ensures
        r@ == images@,
{
    let r = images.clone();
    assert(r@ =~= images@);
    r
}

/// A copy of a list of ingredients.
pub fn clone_ingredients(ingredients: &Vec<Ingredient>) -> (r: Vec<Ingredient>)
    ensures
        r@ == ingredients@,
{
    let r = ingredients.clone();
    assert(r@ =~= ingredients@);
    r
}

/// A copy of a list of steps.
pub fn clone_steps(steps: &Vec<RecipeStep>) -> (r: Vec<RecipeStep>)
    ensures
        r@ == steps@,
{
    let r = steps.clone();
    assert(r@ =~= steps@);
    r
}

impl Clone for Recipe {
    fn clone(&self) -> (r: Self)
        ensures
            r@ == self@,
    {
        Recipe {
            _id: self._id.clone(),
            name: self.name.clone(),
            images: clone_images(&self.images),
            preparation_time_in_minutes: self.preparation_time_in_minutes,
            nutrition: self.nutrition,
            num_of_likes: self.num_of_likes,
            num_of_views: self.num_of_views,
            ingredients: clone_ingredients(&self.ingredients),
            steps: clone_steps(&self.steps),
            created_at: self.created_at.clone(),
        }
    }
}

impl Clone for RecipeDocument {
    fn clone(&self) -> (r: Self)
        ensures
            r@ == self@,
    {
        RecipeDocument {
            _id: self._id,
            name: self.name.clone(),
            images: clone_images(&self.images),
            preparation_time_in_minutes: self.preparation_time_in_minutes,
            nutrition: self.nutrition,
            num_of_likes: self.num_of_likes,
            num_of_views: self.num_of_views,
            ingredients: clone_ingredients(&self.ingredients),
            steps: clone_steps(&self.steps),
            created_at: self.created_at,
        }
    }
}

impl RecipeView {
    /// The document for a recipe created at `at`: no identifier yet, the content as given.
    pub open spec fn document_at(self, at: int) -> RecipeDocumentView {
        RecipeDocumentView { id: None, content: self.content, created_at: at }
    }
}

impl RecipeDocumentView {
    /// The recipe handed to clients: the identifier (or `fallback` where the
    /// document has none) in text form, the creation time printed, the
    /// content as stored.
    pub open spec fn object_with(self, fallback: Seq<u8>) -> RecipeView {
        RecipeView {
            id: key_text(
                match self.id {
                    Some(k) => k,
                    None => fallback,
                },
            ),
            content: self.content,
            created_at: timestamp_text(self.created_at),
        }
    }
}

impl Recipe {
    /// The document that stands for this recipe when it was created at `created_at`.
    pub fn to_document_at(&self, created_at: Timestamp) -> (d: RecipeDocument)
        ensures
            d@ == self@.document_at(created_at@),
    {
        RecipeDocument {
            _id: None,
            name: self.name.clone(),
            images: clone_images(&self.images),
            preparation_time_in_minutes: self.preparation_time_in_minutes,
            nutrition: Nutrition {
                calories: self.nutrition.calories,
                fat: self.nutrition.fat,
                carbs: self.nutrition.carbs,
                fiber: self.nutrition.fiber,
                protein: self.nutrition.protein,
            },
            num_of_likes: self.num_of_likes,
            num_of_views: self.num_of_views,
            ingredients: clone_ingredients(&self.ingredients),
            steps: clone_steps(&self.steps),
            created_at,
        }
    }
}

impl DocumentConvertable<RecipeDocument> for Recipe {
    /// The document for this recipe, stamped with the current time.
    open spec fn documented_as(&self, document: RecipeDocument) -> bool {
        document@ == self@.document_at(document.created_at@)
    }

    fn to_document(&self) -> (d: RecipeDocument) {
        let now = current_timestamp();
        self.to_document_at(now)
    }
}

impl RecipeDocument {
    /// The recipe for this document, with `fallback` standing in for a missing identifier.
    pub fn to_object_with(&self, fallback: StoreKey) -> (recipe: Recipe)
        ensures
            recipe@ == self@.object_with(fallback@),
    {
        let key = match self._id {
            Some(k) => k,
            None => fallback,
        };
        Recipe {
            _id: object_id_hex(&key),
            name: self.name.clone(),
            images: clone_images(&self.images),
            preparation_time_in_minutes: self.preparation_time_in_minutes,
            nutrition: Nutrition {
                calories: self.nutrition.calories,
                fat: self.nutrition.fat,
                carbs: self.nutrition.carbs,
                fiber: self.nutrition.fiber,
                protein: self.nutrition.protein,
            },
            num_of_likes: self.num_of_likes,
            num_of_views: self.num_of_views,
            ingredients: clone_ingredients(&self.ingredients),
            steps: clone_steps(&self.steps),
            created_at: timestamp_to_string(&self.created_at),
        }
    }
}

impl ObjectConvertable<Recipe> for RecipeDocument {
    /// The recipe for this document; a document without an identifier gets a
    /// freshly generated one.
    open spec fn converted_to(&self, object: Recipe) -> bool {
        exists|fallback: Seq<u8>|
            fallback.len() == 12 && object@ == #[trigger] self@.object_with(fallback)
    }

    fn to_object(&self) -> (recipe: Recipe) {
        let fallback = match self._id {
            Some(key) => key,
            None => fresh_object_id(),
        };
        let recipe = self.to_object_with(fallback);
        assert(fallback@.len() == 12);
        recipe
    }
}

/// Round trip: a recipe that is turned into a document, stored under a key
/// and turned back into a recipe has the content it had. Its identifier is
/// the text form of the key, its creation time the printed form of the
/// document's.
pub proof fn lemma_recipe_round_trip(
    recipe: Recipe,
    document: RecipeDocument,
    key: StoreKey,
    stored: RecipeDocument,
    fetched: Recipe,
)
    requires
        recipe.documented_as(document),
        stored@ == (RecipeDocumentView { id: Some(key@), ..document@ }),
        stored.converted_to(fetched),
    ensures
        fetched@.content == recipe@.content,
        fetched@.id == key_text(key@),
        fetched@.created_at == timestamp_text(document@.created_at),
{
}

} // verus!
