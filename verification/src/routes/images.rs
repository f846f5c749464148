use crate::db::crud::{DeleteResult, InsertOneResult, InsertedId};
use crate::db::{current_timestamp, key_text, object_id_hex, timestamp_text, timestamp_to_string};
use crate::db::{StoreKey, Timestamp};
use crate::errors::{failure, ApiError, Status};
use crate::models::image::{decoded_dimensions, readable_image};
use crate::models::image::{Image, ImageDocument, ImageFile, ImageView, UploadImage};
use crate::models::image::UploadedFile;
use crate::models::recipe::{image_views, Recipe, RecipeContent, RecipeDocument};
use crate::repository::db_error::DbError;
use crate::routes::gifs::{ContentType, FileResponse};
use crate::routes::with_key;
use vstd::prelude::*;

verus! {

/// The form of an image upload: a title and the file.
pub type ImageForm = UploadImage;

/// An upload after it was persisted: where it lies, and the form with the
/// bytes as they were read back from there.
#[derive(Debug, PartialEq, Eq)]
pub struct StoredImage {
    pub path: String,
    pub form: ImageForm,
}

/// A point of an image upload at which a decision is due, with what is known
/// by then.
#[derive(Debug, PartialEq, Eq)]
pub enum ImageUpload {
    /// The store has answered the lookup of the parent recipe.
    RecipeLooked { key: StoreKey, found: Result<Option<Recipe>, DbError> },
    /// The file was persisted and read back, or that failed.
    FileStored { key: StoreKey, recipe: Recipe, stored: Option<StoredImage> },
    /// The store has answered the insert of the image.
    ImageInserted {
        key: StoreKey,
        recipe: Recipe,
        image: Image,
        inserted: Result<InsertOneResult, DbError>,
    },
    /// The store has answered the replacement of the parent recipe.
    RecipeReplaced { image: Image, replaced: Result<Option<Recipe>, DbError> },
}

/// What is to be done next for an image upload.
#[derive(Debug, PartialEq, Eq)]
pub enum ImageUploadAction {
    /// Persist the uploaded file and read it back.
    StoreFile { key: StoreKey, recipe: Recipe },
    /// Insert `document` into the image collection.
    InsertImage { key: StoreKey, recipe: Recipe, image: Image, document: ImageDocument },
    /// Replace the recipe under `key` by `replacement`.
    ReplaceRecipe { key: StoreKey, image: Image, replacement: RecipeDocument },
    /// Answer the client.
    Respond(Result<Recipe, ApiError>),
}

/// Whether `action` answers the client with the given failure.
pub open spec fn refuses(action: ImageUploadAction, status: Status, description: Seq<char>) -> bool {
    action matches ImageUploadAction::Respond(Err(e)) && e@ == failure(status, description)
}

/// The image record of an upload persisted at `path` under the client's file
/// name `name`, probed as `width` by `height`, at the time `now`.
pub open spec fn new_image(path: Seq<char>, name: Seq<char>, width: int, height: int, now: int) -> ImageView {
    ImageView {
        id: Seq::empty(),
        path,
        width,
        height,
        title: name,
        created_at: timestamp_text(now),
    }
}

impl RecipeContent {
    /// The content with `image` appended to the embedded images.
    pub open spec fn with_image(self, image: ImageView) -> RecipeContent {
        RecipeContent { images: self.images.push(image), ..self }
    }
}

/// What an image upload does at each point, at the time `now`.
///
/// A lookup that matches nothing is not found; a store failure never is.
/// An upload that cannot be persisted or decoded is an internal error, one
/// without a file name a bad request. After the insert the image carries its
/// key and is appended to the recipe, which is then replaced as a whole; the
/// answer is the recipe that the store handed back, with the image appended.
pub open spec fn image_upload_next(step: ImageUpload, now: int, action: ImageUploadAction) -> bool {
    match step {
        ImageUpload::RecipeLooked { key, found } => match found {
            Ok(Some(recipe)) => action == (ImageUploadAction::StoreFile { key, recipe }),
            Ok(None) => refuses(action, Status::NotFound, "Could not find the image."@),
            Err(_) => refuses(action, Status::InternalServerError, "Could not find the image."@),
        },
        ImageUpload::FileStored { key, recipe, stored } => match stored {
            None => refuses(action, Status::InternalServerError, "Could not store the upload."@),
            Some(upload) => if !readable_image(upload.form.file.data@) {
                refuses(action, Status::InternalServerError, "Unreadable upload."@)
            } else {
                match upload.form.file.name {
                    None => refuses(action, Status::BadRequest, "Upload has no file name."@),
                    Some(name) => {
                        &&& action matches ImageUploadAction::InsertImage {
                            key: k,
                            recipe: r,
                            image,
                            document,
                        }
                        &&& k == key
                        &&& r == recipe
                        &&& decoded_dimensions(upload.form.file.data@) matches Some((w, h))
                        &&& image@ == new_image(upload.path@, name@, w as int, h as int, now)
                        &&& document@ == image@.document_at(now)
                    },
                }
            },
        },
        ImageUpload::ImageInserted { key, recipe, image, inserted } => match inserted {
            Err(_) => refuses(action, Status::BadRequest, "Invalid input."@),
            Ok(report) => match report.inserted_id {
                InsertedId::Other(_) => refuses(action, Status::BadRequest, "No Object ID found!"@),
                InsertedId::Key(image_key) => {
                    &&& action matches ImageUploadAction::ReplaceRecipe {
                        key: k,
                        image: stamped,
                        replacement: document,
                    }
                    &&& k == key
                    &&& stamped@ == (ImageView { id: key_text(image_key@), ..image@ })
                    &&& document@.id is None
                    &&& document@.content == recipe@.content.with_image(stamped@)
                    &&& document@.created_at == now
                },
            },
        },
        ImageUpload::RecipeReplaced { image, replaced } => match replaced {
            Ok(Some(recipe)) => {
                &&& action matches ImageUploadAction::Respond(Ok(answer))
                &&& answer@.id == recipe@.id
                &&& answer@.created_at == recipe@.created_at
                &&& answer@.content == recipe@.content.with_image(image@)
            },
            Ok(None) => refuses(
                action,
                Status::NotFound,
                "Updating recipe with new image failed."@,
            ),
            Err(_) => refuses(
                action,
                Status::InternalServerError,
                "Updating recipe with new image failed."@,
            ),
        },
    }
}

/// Answers the client with a failure.
fn refuse(status: Status, description: &str) -> (action: ImageUploadAction)
    ensures
        refuses(action, status, description@),
{
    ImageUploadAction::Respond(Err(ApiError::build(status, description.to_owned())))
}

/// Decides the next action of an image upload, taking `now` for the current time.
pub fn post_image_at(step: ImageUpload, now: Timestamp) -> (action: ImageUploadAction)
    ensures
        image_upload_next(step, now@, action),
{
    match step {
        ImageUpload::RecipeLooked { key, found } => match found {
            Ok(Some(recipe)) => ImageUploadAction::StoreFile { key, recipe },
            Ok(None) => refuse(Status::NotFound, "Could not find the image."),
            Err(_) => refuse(Status::InternalServerError, "Could not find the image."),
        },
        ImageUpload::FileStored { key, recipe, stored } => match stored {
            None => refuse(Status::InternalServerError, "Could not store the upload."),
            Some(upload) => {
                let StoredImage { path, form } = upload;
                let ImageForm { title: _, file } = form;
                let UploadedFile { name, data } = file;
                match ImageFile::read(data) {
                    Err(_) => refuse(Status::InternalServerError, "Unreadable upload."),
                    Ok(image_file) => match name {
                        None => refuse(Status::BadRequest, "Upload has no file name."),
                        Some(name) => {
                            let image = Image {
                                _id: String::new(),
                                path,
                                width: image_file.width,
                                height: image_file.height,
                                title: name,
                                created_at: timestamp_to_string(&now),
                            };
                            let document = image.to_document_at(now);
                            ImageUploadAction::InsertImage { key, recipe, image, document }
                        },
                    },
                }
            },
        },
        ImageUpload::ImageInserted { key, recipe, image, inserted } => match inserted {
            Err(_) => refuse(Status::BadRequest, "Invalid input."),
            Ok(report) => match report.inserted_id.as_object_id() {
                None => refuse(Status::BadRequest, "No Object ID found!"),
                Some(image_key) => {
                    let mut image = image;
                    let mut recipe = recipe;
                    image._id = object_id_hex(&image_key);
                    let ghost before = recipe.images@;
                    recipe.images.push(image.clone());
                    assert(image_views(before.push(image)) =~= image_views(before).push(image@));
                    let replacement = recipe.to_document_at(now);
                    ImageUploadAction::ReplaceRecipe { key, image, replacement }
                },
            },
        },
        ImageUpload::RecipeReplaced { image, replaced } => match replaced {
            Ok(Some(recipe)) => {
                let mut recipe = recipe;
                let ghost before = recipe.images@;
                recipe.images.push(image);
                assert(image_views(before.push(image)) =~= image_views(before).push(image@));
                ImageUploadAction::Respond(Ok(recipe))
            },
            Ok(None) => refuse(Status::NotFound, "Updating recipe with new image failed."),
            Err(_) => refuse(
                Status::InternalServerError,
                "Updating recipe with new image failed.",
            ),
        },
    }
}

/// Decides the next action of an image upload: one of the actions that
/// `post_image_at` takes at some time.
pub fn post_image(step: ImageUpload) -> (action: ImageUploadAction)
    ensures
        exists|now: int| image_upload_next(step, now, action),
{
    let now = current_timestamp();
    let action = post_image_at(step, now);
    assert(image_upload_next(step, now@, action));
    action
}

/// An upload that runs to its end answers with the recipe that the store
/// handed back and exactly one image more: the inserted one, under the text
/// form of its key, with the width and height decoded from the uploaded bytes.
pub proof fn lemma_upload_appends_decoded_image(
    key: StoreKey,
    recipe: Recipe,
    upload: StoredImage,
    report: InsertOneResult,
    replaced: Recipe,
    times: (int, int, int),
    actions: (ImageUploadAction, ImageUploadAction, ImageUploadAction),
)
    requires
        image_upload_next(
            ImageUpload::FileStored { key, recipe, stored: Some(upload) },
            times.0,
            actions.0,
        ),
        actions.0 matches ImageUploadAction::InsertImage { image, .. } && image_upload_next(
            ImageUpload::ImageInserted { key, recipe, image, inserted: Ok(report) },
            times.1,
            actions.1,
        ),
        actions.1 matches ImageUploadAction::ReplaceRecipe { image, .. } && image_upload_next(
            ImageUpload::RecipeReplaced { image, replaced: Ok(Some(replaced)) },
            times.2,
            actions.2,
        ),
    ensures
        actions.2 matches ImageUploadAction::Respond(Ok(answer)) && {
            let images = answer@.content.images;
            &&& images.len() == replaced@.content.images.len() + 1
            &&& images.drop_last() == replaced@.content.images
            &&& decoded_dimensions(upload.form.file.data@) matches Some((w, h))
                && images.last().width == w && images.last().height == h
            &&& report.inserted_id matches InsertedId::Key(k) && images.last().id == key_text(k@)
        },
{
    let answer = actions.2->Respond_0->Ok_0;
    let images = answer@.content.images;
    assert(images.drop_last() =~= replaced@.content.images);
}

/// The message that names an image nobody could be given.
pub open spec fn image_not_found(key: Seq<u8>) -> Seq<char> {
    "Image not found with _id "@ + key_text(key)
}

/// A point of serving an image at which a decision is due.
#[derive(Debug, PartialEq, Eq)]
pub enum ImageFetch {
    /// The store has answered the lookup of the image under `key`.
    Looked { key: StoreKey, found: Result<Option<Image>, DbError> },
    /// The file at the image's path was read, or that failed.
    FileRead { data: Option<Vec<u8>> },
}

/// What is to be done next for serving an image.
#[derive(Debug, PartialEq, Eq)]
pub enum ImageFetchAction {
    /// Read the file at `path`.
    ReadFile { path: String },
    /// Answer the client.
    Respond(Result<FileResponse, ApiError>),
}

/// Whether `action` answers the client with the given failure.
pub open spec fn fetch_refuses(action: ImageFetchAction, status: Status, description: Seq<char>) -> bool {
    action matches ImageFetchAction::Respond(Err(e)) && e@ == failure(status, description)
}

/// What serving an image does at each point: the file of a found image is
/// read and, where it decodes as an image, sent as JPEG; no match is not
/// found, a store failure a bad request, an unreadable file an internal error.
pub open spec fn image_fetch_next(step: ImageFetch, action: ImageFetchAction) -> bool {
    match step {
        ImageFetch::Looked { key, found } => match found {
            Ok(Some(image)) => action matches ImageFetchAction::ReadFile { path }
                && path@ == image.path@,
            Ok(None) => fetch_refuses(action, Status::NotFound, "Could not find the image."@),
            Err(_) => fetch_refuses(
                action,
                Status::BadRequest,
                image_not_found(key@),
            ),
        },
        ImageFetch::FileRead { data } => match data {
            None => fetch_refuses(
                action,
                Status::InternalServerError,
                "Could not read the image."@,
            ),
            Some(bytes) => if readable_image(bytes@) {
                &&& action matches ImageFetchAction::Respond(Ok(response))
                &&& response.0.0 == ContentType::JPEG
                &&& response.0.1@ == bytes@
            } else {
                fetch_refuses(action, Status::InternalServerError, "Unreadable image."@)
            },
        },
    }
}

/// Decides the next action of serving an image.
pub fn get_image(step: ImageFetch) -> (action: ImageFetchAction)
    ensures
        image_fetch_next(step, action),
{
    match step {
        ImageFetch::Looked { key, found } => match found {
            Ok(Some(image)) => ImageFetchAction::ReadFile { path: image.path },
            Ok(None) => ImageFetchAction::Respond(
                Err(ApiError::build(Status::NotFound, "Could not find the image.".to_owned())),
            ),
            Err(_) => ImageFetchAction::Respond(
                Err(ApiError::build(Status::BadRequest, with_key("Image not found with _id ", &key))),
            ),
        },
        ImageFetch::FileRead { data } => match data {
            None => ImageFetchAction::Respond(
                Err(
                    ApiError::build(
                        Status::InternalServerError,
                        "Could not read the image.".to_owned(),
                    ),
                ),
            ),
            Some(bytes) => match ImageFile::read(bytes) {
                Ok(image_file) => ImageFetchAction::Respond(
                    Ok(FileResponse((ContentType::JPEG, image_file.data))),
                ),
                Err(_) => ImageFetchAction::Respond(
                    Err(
                        ApiError::build(
                            Status::InternalServerError,
                            "Unreadable image.".to_owned(),
                        ),
                    ),
                ),
            },
        },
    }
}

/// Answers a delete of the image under `id` from the outcome of the delete:
/// a confirmation exactly when the store removed one document, not found
/// when it removed any other number, a bad request where the store failed.
pub fn delete_image(id: &StoreKey, outcome: Result<DeleteResult, DbError>) -> (r: Result<
    &'static str,
    ApiError,
>)
    ensures
        r is Ok <==> (outcome matches Ok(report) && report.deleted_count == 1),
        match outcome {
            Ok(report) => if report.deleted_count == 1 {
                r matches Ok(message) && message@ == "Image successfully deleted!"@
            } else {
                r matches Err(e) && e@ == failure(Status::NotFound, "Not Found."@)
            },
            Err(_) => r matches Err(e) && e@ == failure(
                Status::BadRequest,
                image_not_found(id@),
            ),
        },
{
    match outcome {
        Ok(report) => {
            if report.deleted_count == 1 {
                Ok("Image successfully deleted!")
            } else {
                Err(ApiError::build(Status::NotFound, "Not Found.".to_owned()))
            }
        },
        Err(_) => Err(
            ApiError::build(Status::BadRequest, with_key("Image not found with _id ", id)),
        ),
    }
}

/// Answers a request for the records of all images from the outcome of the
/// listing: every record, or an internal error without a message.
pub fn get_all_images(outcome: Result<Vec<Image>, DbError>) -> (r: Result<Vec<Image>, Status>)
    ensures
        match outcome {
            Ok(images) => r == Ok::<Vec<Image>, Status>(images),
            Err(_) => r == Err::<Vec<Image>, Status>(Status::InternalServerError),
        },
{
    match outcome {
        Ok(images) => Ok(images),
        Err(_) => Err(Status::InternalServerError),
    }
}

} // verus!
