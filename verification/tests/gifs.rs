use image::{DynamicImage, ImageOutputFormat, RgbImage};
use recipe_api::db::crud::{DeleteResult, InsertOneResult, InsertedId};
use recipe_api::db::{StoreKey, Timestamp};
use recipe_api::errors::{ApiError, Status};
use recipe_api::helpers::mock::get_recipe as sample_recipe;
use recipe_api::models::gif::{Gif, RecipeStep};
use recipe_api::models::image::{Image, UploadedFile};
use recipe_api::repository::db_error::DbError;
use recipe_api::routes::gifs::{delete_gif, get_gif, post_gif, post_gif_at};
use recipe_api::routes::gifs::{GifForm, GifUpload, GifUploadAction, StoredGif};
use recipe_api::routes::images::{ImageFetch, ImageFetchAction};
use std::io::Cursor;

const RECIPE_KEY: StoreKey = StoreKey { bytes: [2; 12] };
const STEP_KEY: StoreKey = StoreKey { bytes: [0xcd; 12] };

fn gif(width: u32, height: u32) -> Vec<u8> {
    let mut bytes = Vec::new();
    DynamicImage::ImageRgb8(RgbImage::new(width, height))
        .write_to(&mut Cursor::new(&mut bytes), ImageOutputFormat::Gif)
        .unwrap();
    bytes
}

fn stored(name: Option<&str>, data: Vec<u8>) -> Option<StoredGif> {
    Some(StoredGif {
        path: "/tmp/slice".to_string(),
        form: GifForm {
            title: "slice".to_string(),
            description: "Slice the salmon.".to_string(),
            file: UploadedFile { name: name.map(|n| n.to_string()), data },
        },
    })
}

fn refusal(action: GifUploadAction) -> ApiError {
    match action {
        GifUploadAction::Respond(Err(e)) => e,
        other => panic!("expected a refusal, got {:?}", other),
    }
}

fn failed() -> DbError {
    DbError::new("Failed to update_one.".to_string())
}

fn fresh_step() -> RecipeStep {
    RecipeStep {
        _id: String::new(),
        description: "Slice the salmon.".to_string(),
        gif: Gif { path: "/tmp/slice".to_string(), width: 6, height: 4, title: "knife".to_string() },
        created_at: "1970-01-01 0:00:00.0 +00:00:00".to_string(),
    }
}

#[test]
fn step_upload_lookup_outcomes() {
    let recipe = sample_recipe();
    let found = post_gif(GifUpload::RecipeLooked { key: RECIPE_KEY, found: Ok(Some(recipe.clone())) });
    assert_eq!(found, GifUploadAction::StoreFile { key: RECIPE_KEY, recipe });
    let none = refusal(post_gif(GifUpload::RecipeLooked { key: RECIPE_KEY, found: Ok(None) }));
    assert_eq!(none, ApiError { status: Status::NotFound, description: "Could not find the image.".to_string() });
    let broken = refusal(post_gif(GifUpload::RecipeLooked { key: RECIPE_KEY, found: Err(failed()) }));
    assert_eq!(broken, ApiError { status: Status::InternalServerError, description: "Could not find the image.".to_string() });
}

#[test]
fn step_upload_file_outcomes() {
    let lost = refusal(post_gif(GifUpload::FileStored { key: RECIPE_KEY, recipe: sample_recipe(), stored: None }));
    assert_eq!(lost, ApiError { status: Status::InternalServerError, description: "Could not store the upload.".to_string() });
    let garbage = refusal(post_gif(GifUpload::FileStored {
        key: RECIPE_KEY,
        recipe: sample_recipe(),
        stored: stored(Some("knife"), vec![9; 40]),
    }));
    assert_eq!(garbage, ApiError { status: Status::InternalServerError, description: "Unreadable upload.".to_string() });
    let nameless = refusal(post_gif(GifUpload::FileStored {
        key: RECIPE_KEY,
        recipe: sample_recipe(),
        stored: stored(None, gif(6, 4)),
    }));
    assert_eq!(nameless, ApiError { status: Status::BadRequest, description: "Upload has no file name.".to_string() });
}

#[test]
fn stored_step_upload_becomes_a_step_record() {
    let recipe = sample_recipe();
    let step = GifUpload::FileStored { key: RECIPE_KEY, recipe: recipe.clone(), stored: stored(Some("knife"), gif(6, 4)) };
    match post_gif_at(step, Timestamp { millis: 0 }) {
        GifUploadAction::InsertStep { key, recipe: carried, recipe_step, document } => {
            assert_eq!(key, RECIPE_KEY);
            assert_eq!(carried, recipe);
            assert_eq!(recipe_step, fresh_step());
            assert_eq!(document, recipe_step.to_document_at(Timestamp { millis: 0 }));
        }
        other => panic!("unexpected action {:?}", other),
    }
}

#[test]
fn step_insert_outcomes() {
    let broken = refusal(post_gif(GifUpload::StepInserted {
        key: RECIPE_KEY,
        recipe: sample_recipe(),
        recipe_step: fresh_step(),
        inserted: Err(failed()),
    }));
    assert_eq!(broken, ApiError { status: Status::BadRequest, description: "Invalid input.".to_string() });
    let keyless = refusal(post_gif(GifUpload::StepInserted {
        key: RECIPE_KEY,
        recipe: sample_recipe(),
        recipe_step: fresh_step(),
        inserted: Ok(InsertOneResult { inserted_id: InsertedId::Other("7".to_string()) }),
    }));
    assert_eq!(keyless, ApiError { status: Status::BadRequest, description: "No Object ID found!".to_string() });
}

#[test]
fn inserted_step_is_appended_to_the_replacement() {
    let step = GifUpload::StepInserted {
        key: RECIPE_KEY,
        recipe: sample_recipe(),
        recipe_step: fresh_step(),
        inserted: Ok(InsertOneResult { inserted_id: InsertedId::Key(STEP_KEY) }),
    };
    match post_gif_at(step, Timestamp { millis: 77 }) {
        GifUploadAction::ReplaceRecipe { key, recipe_step, replacement } => {
            assert_eq!(key, RECIPE_KEY);
            assert_eq!(recipe_step, RecipeStep { _id: "cd".repeat(12), ..fresh_step() });
            let mut expected = sample_recipe();
            expected.steps.push(recipe_step.clone());
            assert_eq!(replacement, expected.to_document_at(Timestamp { millis: 77 }));
            assert_eq!(replacement.steps.len(), 4);
        }
        other => panic!("unexpected action {:?}", other),
    }
}

#[test]
fn step_replace_outcomes() {
    let stamped = RecipeStep { _id: "cd".repeat(12), ..fresh_step() };
    let done = post_gif(GifUpload::RecipeReplaced { recipe_step: stamped.clone(), replaced: Ok(Some(sample_recipe())) });
    assert_eq!(done, GifUploadAction::Respond(Ok(stamped.clone())));
    let gone = refusal(post_gif(GifUpload::RecipeReplaced { recipe_step: stamped.clone(), replaced: Ok(None) }));
    assert_eq!(gone, ApiError { status: Status::NotFound, description: "Updating recipe with new image failed.".to_string() });
    let broken = refusal(post_gif(GifUpload::RecipeReplaced { recipe_step: stamped, replaced: Err(failed()) }));
    assert_eq!(
        broken,
        ApiError { status: Status::InternalServerError, description: "Updating recipe with new image failed.".to_string() }
    );
}

#[test]
fn step_file_is_served_as_an_image_is() {
    let image = Image {
        _id: "cd".repeat(12),
        path: "/tmp/slice".to_string(),
        width: 6,
        height: 4,
        title: "knife".to_string(),
        created_at: String::new(),
    };
    let action = get_gif(ImageFetch::Looked { key: STEP_KEY, found: Ok(Some(image)) });
    assert_eq!(action, ImageFetchAction::ReadFile { path: "/tmp/slice".to_string() });
    let none = get_gif(ImageFetch::Looked { key: STEP_KEY, found: Ok(None) });
    assert_eq!(
        none,
        ImageFetchAction::Respond(Err(ApiError { status: Status::NotFound, description: "Could not find the image.".to_string() }))
    );
}

#[test]
fn step_delete_outcomes() {
    assert_eq!(delete_gif(&STEP_KEY, Ok(DeleteResult { deleted_count: 1 })).unwrap(), "GIF successfully deleted!");
    let none = delete_gif(&STEP_KEY, Ok(DeleteResult { deleted_count: 0 })).unwrap_err();
    assert_eq!(none, ApiError { status: Status::NotFound, description: "Not Found.".to_string() });
    let broken = delete_gif(&STEP_KEY, Err(failed())).unwrap_err();
    assert_eq!(
        broken,
        ApiError { status: Status::BadRequest, description: "GIF not found with _id cdcdcdcdcdcdcdcdcdcdcdcd".to_string() }
    );
}
