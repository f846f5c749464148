use crate::db::crud::{delete_one, find_one, DeleteResult, InsertOneResult};
use crate::db::{key_text, StoreKey};
use crate::errors::{ApiError, ApiErrorView, Status};
use crate::models::recipe::{Recipe, RecipeDocument, RecipeDocumentView};
use crate::models::DocumentConvertable;
use crate::repository::db_error::DbError;
use crate::routes::with_key;
use vstd::prelude::*;

verus! {

/// The message that names a recipe nobody could be given.
pub open spec fn recipe_not_found(key: Seq<u8>) -> Seq<char> {
    "Recipe not found with _id "@ + key_text(key)
}

/// Answers a create request from the outcome of the insert: the printed form
/// of the generated identifier, or an internal error where the store failed.
pub fn post_recipe(outcome: Result<InsertOneResult, DbError>) -> (r: Result<String, ApiError>)
    ensures
        match outcome {
            Ok(report) => r matches Ok(id) && id@ == report.inserted_id.spec_text(),
            Err(_) => r matches Err(e) && e@ == (ApiErrorView {
                status: Status::InternalServerError,
                description: "Recipe not added."@,
            }),
        },
{
    match outcome {
        Ok(report) => Ok(report.inserted_id.text()),
        Err(_) => Err(ApiError::build(Status::InternalServerError, "Recipe not added.".to_owned())),
    }
}

/// Answers a read-one request for the recipe under `id` from the outcome of
/// the lookup: the recipe where one was found, not found where none matched,
/// an internal error where the store failed.
pub fn get_recipe(id: &StoreKey, found: Result<Option<Recipe>, DbError>) -> (r: Result<
    Recipe,
    ApiError,
>)
    ensures
        match found {
            Ok(Some(recipe)) => r == Ok::<Recipe, ApiError>(recipe),
            Ok(None) => r matches Err(e) && e@ == (ApiErrorView {
                status: Status::NotFound,
                description: recipe_not_found(id@),
            }),
            Err(_) => r matches Err(e) && e@ == (ApiErrorView {
                status: Status::InternalServerError,
                description: recipe_not_found(id@),
            }),
        },
{
    match found {
        Ok(Some(recipe)) => Ok(recipe),
        Ok(None) => Err(
            ApiError::build(Status::NotFound, with_key("Recipe not found with _id ", id)),
        ),
        Err(_) => Err(
            ApiError::build(
                Status::InternalServerError,
                with_key("Recipe not found with _id ", id),
            ),
        ),
    }
}

/// Answers a whole-document replace of the recipe under `id` from the outcome
/// of the replacement: the recipe that the store handed back, not found
/// where none matched, a bad request where the store failed.
pub fn update_recipe(id: &StoreKey, replaced: Result<Option<Recipe>, DbError>) -> (r: Result<
    Recipe,
    ApiError,
>)
    ensures
        match replaced {
            Ok(Some(recipe)) => r == Ok::<Recipe, ApiError>(recipe),
            Ok(None) => r matches Err(e) && e@ == (ApiErrorView {
                status: Status::NotFound,
                description: recipe_not_found(id@),
            }),
            Err(_) => r matches Err(e) && e@ == (ApiErrorView {
                status: Status::BadRequest,
                description: recipe_not_found(id@),
            }),
        },
{
    match replaced {
        Ok(Some(recipe)) => Ok(recipe),
        Ok(None) => Err(
            ApiError::build(Status::NotFound, with_key("Recipe not found with _id ", id)),
        ),
        Err(_) => Err(
            ApiError::build(Status::BadRequest, with_key("Recipe not found with _id ", id)),
        ),
    }
}

/// Answers a delete of the recipe under `id` from the outcome of the delete:
/// a confirmation exactly when the store removed one document, not found
/// when it removed any other number, a bad request where the store failed.
pub fn delete_recipe(id: &StoreKey, outcome: Result<DeleteResult, DbError>) -> (r: Result<
    &'static str,
    ApiError,
>)
    ensures
        r is Ok <==> (outcome matches Ok(report) && report.deleted_count == 1),
        match outcome {
            Ok(report) => if report.deleted_count == 1 {
                r matches Ok(message) && message@ == "recipe successfully deleted!"@
            } else {
                r matches Err(e) && e@ == (ApiErrorView {
                    status: Status::NotFound,
                    description: "Not Found."@,
                })
            },
            Err(_) => r matches Err(e) && e@ == (ApiErrorView {
                status: Status::BadRequest,
                description: recipe_not_found(id@),
            }),
        },
{
    match outcome {
        Ok(report) => {
            if report.deleted_count == 1 {
                Ok("recipe successfully deleted!")
            } else {
                Err(ApiError::build(Status::NotFound, "Not Found.".to_owned()))
            }
        },
        Err(_) => Err(
            ApiError::build(Status::BadRequest, with_key("Recipe not found with _id ", id)),
        ),
    }
}

/// Answers a read-all request from the outcome of the listing: every recipe
/// of the collection, or a bad request that carries the store layer's message.
pub fn get_all_recipes(outcome: Result<Vec<Recipe>, DbError>) -> (r: Result<Vec<Recipe>, ApiError>)
    ensures
        match outcome {
            Ok(recipes) => r == Ok::<Vec<Recipe>, ApiError>(recipes),
            Err(err) => r matches Err(e) && e@ == (ApiErrorView {
                status: Status::BadRequest,
                description: err@,
            }),
        },
{
    match outcome {
        Ok(recipes) => Ok(recipes),
        Err(err) => Err(ApiError::build(Status::BadRequest, err.details)),
    }
}

/// Round trip through create and read-one: when a recipe is turned into its
/// document, the store keeps that document under a key of its choosing, and
/// the lookup of that key finds it, the answer is a recipe with the content
/// that was sent, under the text form of the key.
pub proof fn lemma_created_recipe_is_read_back<E>(
    recipe: Recipe,
    document: RecipeDocument,
    key: StoreKey,
    stored: RecipeDocument,
    found: Result<Option<Recipe>, DbError>,
    answer: Result<Recipe, ApiError>,
)
    requires
        call_ensures(
            <Recipe as DocumentConvertable<RecipeDocument>>::to_document,
            (&recipe,),
            document,
        ),
        stored@ == (RecipeDocumentView { id: Some(key@), ..document@ }),
        call_ensures(find_one::<RecipeDocument, Recipe, E>, (Ok(Some(stored)),), found),
        call_ensures(get_recipe, (&key, found), answer),
    ensures
        answer matches Ok(fetched) && fetched@.content == recipe@.content && fetched@.id
            == key_text(key@),
{
}

/// A delete that removed nothing is answered with not found, never with a
/// confirmation.
pub proof fn lemma_delete_of_nothing_is_not_found<E>(
    key: StoreKey,
    outcome: Result<DeleteResult, DbError>,
    answer: Result<&'static str, ApiError>,
)
    requires
        call_ensures(delete_one::<E>, (Ok(DeleteResult { deleted_count: 0 }),), outcome),
        call_ensures(delete_recipe, (&key, outcome), answer),
    ensures
        answer matches Err(e) && e.status == Status::NotFound,
{
}

} // verus!
