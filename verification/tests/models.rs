use recipe_api::db::{StoreKey, Timestamp};
use recipe_api::helpers::mock::get_recipe;
use recipe_api::models::customer::{Customer, CustomerDocument, CustomerInput};
use recipe_api::models::gif::{Gif, RecipeStep, RecipeStepDocument};
use recipe_api::models::image::{Image, ImageDocument};
use recipe_api::models::recipe::{Ingredient, IngredientUnit, Nutrition, Recipe, RecipeDocument};
use recipe_api::models::user_model::User;
use recipe_api::models::{DocumentConvertable, ObjectConvertable};
use recipe_api::repository::db_error::DbError;
use recipe_api::repository::mongodb_repo::create_user;

const KEY: StoreKey = StoreKey { bytes: [0x63, 0xce, 0xed, 0x18, 0xf7, 0x1d, 0xda, 0x7d, 0x8c, 0xf2, 0x1e, 0x8e] };
const OTHER: StoreKey = StoreKey { bytes: [1, 2, 3, 4, 5, 6, 7, 8, 9, 10, 11, 12] };

fn is_lower_hex(s: &str) -> bool {
    s.len() == 24 && s.chars().all(|c| c.is_ascii_digit() || ('a'..='f').contains(&c))
}

fn sample_image() -> Image {
    Image {
        _id: "ignored".to_string(),
        path: "/tmp/salmon.jpg".to_string(),
        width: 640,
        height: 480,
        title: "salmon".to_string(),
        created_at: "ignored too".to_string(),
    }
}

#[test]
fn db_error_keeps_its_message() {
    let e = DbError::new("Failed to find_one.".to_string());
    assert_eq!(e.details, "Failed to find_one.");
    assert_eq!(e.description(), "Failed to find_one.");
}

#[test]
fn sample_recipe_is_salmon() {
    let r = get_recipe();
    assert_eq!(r._id, "");
    assert_eq!(r.name, "Salmon");
    assert_eq!(r.images.len(), 2);
    assert_eq!(r.images[0].path, "1");
    assert_eq!(r.images[1].path, "2");
    assert_eq!(r.images[1].title, "hello 1");
    assert_eq!((r.images[0].width, r.images[0].height), (10, 10));
    assert_eq!(r.preparation_time_in_minutes, 20);
    assert_eq!(r.nutrition, Nutrition { calories: 10, fat: 20, carbs: 5, fiber: 45, protein: 12 });
    assert_eq!((r.num_of_likes, r.num_of_views), (0, 0));
    assert_eq!(
        r.ingredients,
        vec![
            Ingredient { name: "Salmon".to_string(), amount: 250, unit: IngredientUnit::g },
            Ingredient { name: "Potatos".to_string(), amount: 125, unit: IngredientUnit::g },
            Ingredient { name: "Salt".to_string(), amount: 5, unit: IngredientUnit::g },
        ]
    );
    let steps: Vec<&str> = r.steps.iter().map(|s| s.description.as_str()).collect();
    assert_eq!(steps, vec!["Slice the salmon.", "Cook it with the potatoes.", "Enjoy."]);
}

#[test]
fn recipe_document_drops_identifier_and_keeps_content() {
    let mut recipe = get_recipe();
    recipe._id = "53e37d08776f724e42000000".to_string();
    let at = Timestamp { millis: 1_700_000_000_000 };
    let doc = recipe.to_document_at(at);
    assert_eq!(doc._id, None);
    assert_eq!(doc.created_at, at);
    assert_eq!(doc.name, recipe.name);
    assert_eq!(doc.images, recipe.images);
    assert_eq!(doc.ingredients, recipe.ingredients);
    assert_eq!(doc.steps, recipe.steps);
    assert_eq!(doc.nutrition, recipe.nutrition);
    assert_eq!(doc.preparation_time_in_minutes, 20);
    assert_eq!((doc.num_of_likes, doc.num_of_views), (0, 0));
}

#[test]
fn recipe_document_is_stamped_with_a_current_time() {
    let doc = get_recipe().to_document();
    assert_eq!(doc._id, None);
    assert_eq!(doc.name, "Salmon");
    // later than 2020-01-01
    assert!(doc.created_at.millis > 1_577_836_800_000);
}

#[test]
fn recipe_object_prints_key_and_time() {
    let mut doc = get_recipe().to_document_at(Timestamp { millis: 0 });
    doc._id = Some(KEY);
    let recipe = doc.to_object_with(OTHER);
    assert_eq!(recipe._id, "63ceed18f71dda7d8cf21e8e");
    assert_eq!(recipe.created_at, "1970-01-01 0:00:00.0 +00:00:00");
    let same = doc.to_object();
    assert_eq!(same, recipe);
}

#[test]
fn recipe_object_without_identifier_uses_the_fallback() {
    let doc = get_recipe().to_document_at(Timestamp { millis: 1_000 });
    let recipe = doc.to_object_with(OTHER);
    assert_eq!(recipe._id, "0102030405060708090a0b0c");
    assert_eq!(recipe.created_at, "1970-01-01 0:00:01.0 +00:00:00");
    let fresh = doc.to_object();
    assert!(is_lower_hex(&fresh._id));
    assert_eq!(fresh.name, "Salmon");
    assert_eq!(fresh.created_at, recipe.created_at);
}

#[test]
fn recipe_round_trip_keeps_every_field_but_identifier_and_time() {
    let recipe = get_recipe();
    let mut stored = recipe.to_document();
    stored._id = Some(KEY);
    let fetched = stored.to_object();
    assert_eq!(fetched._id, "63ceed18f71dda7d8cf21e8e");
    let expected = Recipe { _id: fetched._id.clone(), created_at: fetched.created_at.clone(), ..recipe };
    assert_eq!(fetched, expected);
}

#[test]
fn recipe_clone_is_equal() {
    let recipe = get_recipe();
    assert_eq!(recipe.clone(), recipe);
    let doc: RecipeDocument = recipe.to_document_at(Timestamp { millis: 5 });
    assert_eq!(doc.clone(), doc);
}

#[test]
fn image_document_and_back() {
    let image = sample_image();
    let at = Timestamp { millis: 86_400_000 };
    let doc = image.to_document_at(at);
    assert_eq!(
        doc,
        ImageDocument {
            _id: None,
            path: "/tmp/salmon.jpg".to_string(),
            width: 640,
            height: 480,
            title: "salmon".to_string(),
            created_at: at,
        }
    );
    let stored = ImageDocument { _id: Some(KEY), ..doc.clone() };
    let back = stored.to_object();
    assert_eq!(
        back,
        Image {
            _id: "63ceed18f71dda7d8cf21e8e".to_string(),
            path: "/tmp/salmon.jpg".to_string(),
            width: 640,
            height: 480,
            title: "salmon".to_string(),
            created_at: "1970-01-02 0:00:00.0 +00:00:00".to_string(),
        }
    );
    assert_eq!(stored.to_object_with(OTHER), back);
    assert!(is_lower_hex(&doc.to_object()._id));
    assert_eq!(image.to_document().path, image.path);
    assert_eq!(image.clone(), image);
}

#[test]
fn step_document_and_back() {
    let step = RecipeStep {
        _id: String::new(),
        description: "Slice the salmon.".to_string(),
        gif: Gif { path: "/tmp/slice.gif".to_string(), width: 3, height: 2, title: "slice".to_string() },
        created_at: String::new(),
    };
    let at = Timestamp { millis: -1 };
    let doc = step.to_document_at(at);
    assert_eq!(
        doc,
        RecipeStepDocument { _id: None, description: step.description.clone(), gif: step.gif.clone(), created_at: at }
    );
    let stored = RecipeStepDocument { _id: Some(OTHER), ..doc.clone() };
    let back = stored.to_object();
    assert_eq!(back._id, "0102030405060708090a0b0c");
    assert_eq!(back.description, "");
    assert_eq!(back.gif, step.gif);
    assert_eq!(back.created_at, "1969-12-31 23:59:59.999 +00:00:00");
    assert_eq!(step.to_document().gif, step.gif);
    assert_eq!(stored.clone(), stored);
    assert_eq!(step.clone(), step);
}

#[test]
fn timestamps_out_of_calendar_range_print_their_milliseconds() {
    let doc = sample_image().to_document_at(Timestamp { millis: i64::MAX });
    assert_eq!(doc.to_object_with(KEY).created_at, i64::MAX.to_string());
}

#[test]
fn unit_names_print_and_parse() {
    let all = [
        (IngredientUnit::kg, "kg"),
        (IngredientUnit::g, "g"),
        (IngredientUnit::mg, "mg"),
        (IngredientUnit::l, "l"),
        (IngredientUnit::dcl, "dcl"),
        (IngredientUnit::ml, "ml"),
        (IngredientUnit::tsp, "tsp"),
        (IngredientUnit::tbsp, "tbsp"),
    ];
    for (unit, name) in all {
        assert_eq!(unit.name(), name);
        assert_eq!(IngredientUnit::parse(name), Some(unit));
    }
    assert_eq!(IngredientUnit::parse("cup"), None);
    assert_eq!(IngredientUnit::parse("KG"), None);
    assert_eq!(IngredientUnit::parse(""), None);
}

#[test]
fn new_user_document_has_no_identifier() {
    let user = User {
        id: Some(KEY),
        name: "Ada".to_string(),
        location: "London".to_string(),
        title: "Cook".to_string(),
    };
    let doc = create_user(user.clone());
    assert_eq!(doc, User { id: None, ..user });
}

#[test]
fn customer_records_hold_their_fields() {
    let doc = CustomerDocument { _id: KEY, name: "Ada".to_string(), createdAt: Timestamp { millis: 1 } };
    let customer = Customer { _id: "63ceed18f71dda7d8cf21e8e".to_string(), name: doc.name.clone(), createdAt: "x".to_string() };
    let input = CustomerInput { name: "Ada".to_string() };
    assert_eq!(customer.name, input.name);
    assert_eq!(doc.clone(), doc);
}
