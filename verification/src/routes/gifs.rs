use crate::db::crud::{DeleteResult, InsertOneResult, InsertedId};
use crate::db::{current_timestamp, key_text, object_id_hex, timestamp_text, timestamp_to_string};
use crate::db::{StoreKey, Timestamp};
use crate::errors::{failure, ApiError, Status};
use crate::models::gif::{Gif, GifView, RecipeStep, RecipeStepDocument, RecipeStepView};
use crate::models::image::{decoded_dimensions, readable_image, ImageFile, UploadedFile};
use crate::models::recipe::{step_views, Recipe, RecipeContent, RecipeDocument};
use crate::repository::db_error::DbError;
use crate::routes::images::{get_image, image_fetch_next, ImageFetch, ImageFetchAction};
use crate::routes::with_key;
use vstd::prelude::*;

verus! {

/// The media type of a served file.
#[derive(Clone, Copy, Debug, PartialEq, Eq, Structural)]
pub enum ContentType {
    JPEG,
}

impl ContentType {
    /// The media type as it stands in the `Content-Type` header.
    pub fn media_type(&self) -> (s: &'static str)
        ensures
            s@ == "image/jpeg"@,
    {
        match self {
            ContentType::JPEG => "image/jpeg",
        }
    }
}

/// A file served to the client: its media type and its bytes.
#[derive(Debug, PartialEq, Eq)]
pub struct FileResponse(pub (ContentType, Vec<u8>));

impl FileResponse {
    /// The header that accompanies every served file, as name and value: the
    /// content may load resources from its own origin only.
    pub fn security_header(&self) -> (header: (&'static str, &'static str))
        ensures
            header.0@ == "Content-Security-Policy"@,
            header.1@ == "default-src 'self';"@,
    {
        ("Content-Security-Policy", "default-src 'self';")
    }
}

/// The form of a step upload: a title, the step's description and the file.
#[derive(Debug, PartialEq, Eq)]
pub struct GifForm {
    pub title: String,
    pub description: String,
    pub file: UploadedFile,
}

/// An upload after it was persisted: where it lies, and the form with the
/// bytes as they were read back from there.
#[derive(Debug, PartialEq, Eq)]
pub struct StoredGif {
    pub path: String,
    pub form: GifForm,
}

/// A point of a step upload at which a decision is due, with what is known
/// by then.
#[derive(Debug, PartialEq, Eq)]
pub enum GifUpload {
    /// The store has answered the lookup of the parent recipe.
    RecipeLooked { key: StoreKey, found: Result<Option<Recipe>, DbError> },
    /// The file was persisted and read back, or that failed.
    FileStored { key: StoreKey, recipe: Recipe, stored: Option<StoredGif> },
    /// The store has answered the insert of the step.
    StepInserted {
        key: StoreKey,
        recipe: Recipe,
        recipe_step: RecipeStep,
        inserted: Result<InsertOneResult, DbError>,
    },
    /// The store has answered the replacement of the parent recipe.
    RecipeReplaced { recipe_step: RecipeStep, replaced: Result<Option<Recipe>, DbError> },
}

/// What is to be done next for a step upload.
#[derive(Debug, PartialEq, Eq)]
pub enum GifUploadAction {
    /// Persist the uploaded file and read it back.
    StoreFile { key: StoreKey, recipe: Recipe },
    /// Insert `document` into the collection of recipe steps.
    InsertStep {
        key: StoreKey,
        recipe: Recipe,
        recipe_step: RecipeStep,
        document: RecipeStepDocument,
    },
    /// Replace the recipe under `key` by `replacement`.
    ReplaceRecipe { key: StoreKey, recipe_step: RecipeStep, replacement: RecipeDocument },
    /// Answer the client.
    Respond(Result<RecipeStep, ApiError>),
}

/// Whether `action` answers the client with the given failure.
pub open spec fn gif_refuses(action: GifUploadAction, status: Status, description: Seq<char>) -> bool {
    action matches GifUploadAction::Respond(Err(e)) && e@ == failure(status, description)
}

/// The step record of an upload persisted at `path` under the client's file
/// name `name`, probed as `width` by `height`, described by `description`, at
/// the time `now`.
pub open spec fn new_step(
    path: Seq<char>,
    name: Seq<char>,
    width: int,
    height: int,
    description: Seq<char>,
    now: int,
) -> RecipeStepView {
    RecipeStepView {
        id: Seq::empty(),
        description,
        gif: GifView { path, width, height, title: name },
        created_at: timestamp_text(now),
    }
}

impl RecipeContent {
    /// The content with `recipe_step` appended to the embedded steps.
    pub open spec fn with_step(self, recipe_step: RecipeStepView) -> RecipeContent {
        RecipeContent { steps: self.steps.push(recipe_step), ..self }
    }
}

/// What a step upload does at each point, at the time `now`.
///
/// A lookup that matches nothing is not found; a store failure never is.
/// An upload that cannot be persisted or decoded is an internal error, one
/// without a file name a bad request. After the insert the step carries its
/// key and is appended to the recipe, which is then replaced as a whole; the
/// answer is the step.
pub open spec fn gif_upload_next(step: GifUpload, now: int, action: GifUploadAction) -> bool {
    match step {
        GifUpload::RecipeLooked { key, found } => match found {
            Ok(Some(recipe)) => action == (GifUploadAction::StoreFile { key, recipe }),
            Ok(None) => gif_refuses(action, Status::NotFound, "Could not find the image."@),
            Err(_) => gif_refuses(
                action,
                Status::InternalServerError,
                "Could not find the image."@,
            ),
        },
        GifUpload::FileStored { key, recipe, stored } => match stored {
            None => gif_refuses(
                action,
                Status::InternalServerError,
                "Could not store the upload."@,
            ),
            Some(upload) => if !readable_image(upload.form.file.data@) {
                gif_refuses(action, Status::InternalServerError, "Unreadable upload."@)
            } else {
                match upload.form.file.name {
                    None => gif_refuses(action, Status::BadRequest, "Upload has no file name."@),
                    Some(name) => {
                        &&& action matches GifUploadAction::InsertStep {
                            key: k,
                            recipe: r,
                            recipe_step,
                            document,
                        }
                        &&& k == key
                        &&& r == recipe
                        &&& decoded_dimensions(upload.form.file.data@) matches Some((w, h))
                        &&& recipe_step@ == new_step(
                            upload.path@,
                            name@,
                            w as int,
                            h as int,
                            upload.form.description@,
                            now,
                        )
                        &&& document@ == recipe_step@.document_at(now)
                    },
                }
            },
        },
        GifUpload::StepInserted { key, recipe, recipe_step, inserted } => match inserted {
            Err(_) => gif_refuses(action, Status::BadRequest, "Invalid input."@),
            Ok(report) => match report.inserted_id {
                InsertedId::Other(_) => gif_refuses(
                    action,
                    Status::BadRequest,
                    "No Object ID found!"@,
                ),
                InsertedId::Key(step_key) => {
                    &&& action matches GifUploadAction::ReplaceRecipe {
                        key: k,
                        recipe_step: stamped,
                        replacement,
                    }
                    &&& k == key
                    &&& stamped@ == (RecipeStepView { id: key_text(step_key@), ..recipe_step@ })
                    &&& replacement@.id is None
                    &&& replacement@.content == recipe@.content.with_step(stamped@)
                    &&& replacement@.created_at == now
                },
            },
        },
        GifUpload::RecipeReplaced { recipe_step, replaced } => match replaced {
            Ok(Some(_)) => action == GifUploadAction::Respond(Ok(recipe_step)),
            Ok(None) => gif_refuses(
                action,
                Status::NotFound,
                "Updating recipe with new image failed."@,
            ),
            Err(_) => gif_refuses(
                action,
                Status::InternalServerError,
                "Updating recipe with new image failed."@,
            ),
        },
    }
}

/// Answers the client with a failure.
fn refuse(status: Status, description: &str) -> (action: GifUploadAction)
    ensures
        gif_refuses(action, status, description@),
{
    GifUploadAction::Respond(Err(ApiError::build(status, description.to_owned())))
}

/// Decides the next action of a step upload, taking `now` for the current time.
pub fn post_gif_at(step: GifUpload, now: Timestamp) -> (action: GifUploadAction)
    ensures
        gif_upload_next(step, now@, action),
{
    match step {
        GifUpload::RecipeLooked { key, found } => match found {
            Ok(Some(recipe)) => GifUploadAction::StoreFile { key, recipe },
            Ok(None) => refuse(Status::NotFound, "Could not find the image."),
            Err(_) => refuse(Status::InternalServerError, "Could not find the image."),
        },
        GifUpload::FileStored { key, recipe, stored } => match stored {
            None => refuse(Status::InternalServerError, "Could not store the upload."),
            Some(upload) => {
                let StoredGif { path, form } = upload;
                let GifForm { title: _, description, file } = form;
                let UploadedFile { name, data } = file;
                match ImageFile::read(data) {
                    Err(_) => refuse(Status::InternalServerError, "Unreadable upload."),
                    Ok(image_file) => match name {
                        None => refuse(Status::BadRequest, "Upload has no file name."),
                        Some(name) => {
                            let gif = Gif {
                                path,
                                width: image_file.width,
                                height: image_file.height,
                                title: name,
                            };
                            let recipe_step = RecipeStep {
                                _id: String::new(),
                                description,
                                gif,
                                created_at: timestamp_to_string(&now),
                            };
                            let document = recipe_step.to_document_at(now);
                            GifUploadAction::InsertStep { key, recipe, recipe_step, document }
                        },
                    },
                }
            },
        },
        GifUpload::StepInserted { key, recipe, recipe_step, inserted } => match inserted {
            Err(_) => refuse(Status::BadRequest, "Invalid input."),
            Ok(report) => match report.inserted_id.as_object_id() {
                None => refuse(Status::BadRequest, "No Object ID found!"),
                Some(step_key) => {
                    let mut recipe_step = recipe_step;
                    let mut recipe = recipe;
                    recipe_step._id = object_id_hex(&step_key);
                    let ghost before = recipe.steps@;
                    recipe.steps.push(recipe_step.clone());
                    assert(step_views(before.push(recipe_step)) =~= step_views(before).push(
                        recipe_step@,
                    ));
                    let replacement = recipe.to_document_at(now);
                    GifUploadAction::ReplaceRecipe { key, recipe_step, replacement }
                },
            },
        },
        GifUpload::RecipeReplaced { recipe_step, replaced } => match replaced {
            Ok(Some(_)) => GifUploadAction::Respond(Ok(recipe_step)),
            Ok(None) => refuse(Status::NotFound, "Updating recipe with new image failed."),
            Err(_) => refuse(
                Status::InternalServerError,
                "Updating recipe with new image failed.",
            ),
        },
    }
}

/// Decides the next action of a step upload: one of the actions that
/// `post_gif_at` takes at some time.
pub fn post_gif(step: GifUpload) -> (action: GifUploadAction)
    ensures
        exists|now: int| gif_upload_next(step, now, action),
{
    let now = current_timestamp();
    let action = post_gif_at(step, now);
    assert(gif_upload_next(step, now@, action));
    action
}

/// Decides the next action of serving the file of a step: it is looked up
/// and served exactly as an image is.
pub fn get_gif(step: ImageFetch) -> (action: ImageFetchAction)
    ensures
        image_fetch_next(step, action),
{
    get_image(step)
}

/// The message that names a step nobody could be given.
pub open spec fn gif_not_found(key: Seq<u8>) -> Seq<char> {
    "GIF not found with _id "@ + key_text(key)
}

/// Answers a delete of the step under `id` from the outcome of the delete:
/// a confirmation exactly when the store removed one document, not found
/// when it removed any other number, a bad request where the store failed.
pub fn delete_gif(id: &StoreKey, outcome: Result<DeleteResult, DbError>) -> (r: Result<
    &'static str,
    ApiError,
>)
    ensures
        r is Ok <==> (outcome matches Ok(report) && report.deleted_count == 1),
        match outcome {
            Ok(report) => if report.deleted_count == 1 {
                r matches Ok(message) && message@ == "GIF successfully deleted!"@
            } else {
                r matches Err(e) && e@ == failure(Status::NotFound, "Not Found."@)
            },
            Err(_) => r matches Err(e) && e@ == failure(Status::BadRequest, gif_not_found(id@)),
        },
{
    match outcome {
        Ok(report) => {
            if report.deleted_count == 1 {
                Ok("GIF successfully deleted!")
            } else {
                Err(ApiError::build(Status::NotFound, "Not Found.".to_owned()))
            }
        },
        Err(_) => Err(ApiError::build(Status::BadRequest, with_key("GIF not found with _id ", id))),
    }
}

} // verus!
