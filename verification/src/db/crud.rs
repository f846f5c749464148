use crate::db::{key_text, StoreKey};
use crate::models::ObjectConvertable;
use crate::repository::db_error::DbError;
use mongodb::bson::oid::ObjectId;
use mongodb::bson::Bson;
use vstd::prelude::*;

verus! {

/// The identifier that the store reports for an inserted document: a key, or
/// a value of another kind, of which only the printed form is kept.
#[derive(Debug, PartialEq, Eq)]
pub enum InsertedId {
    Key(StoreKey),
    Other(String),
}

/// What the store reports after inserting one document.
#[derive(Debug, PartialEq, Eq)]
pub struct InsertOneResult {
    pub inserted_id: InsertedId,
}

/// What the store reports after a delete: how many documents it removed.
#[derive(Clone, Copy, Debug, PartialEq, Eq, Structural)]
pub struct DeleteResult {
    pub deleted_count: u64,
}

/// The printed form of a key as a store value.
pub open spec fn key_value_text(key: Seq<u8>) -> Seq<char> {
    "ObjectId(\""@ + key_text(key) + "\")"@
}

/// Prints `Bson::ObjectId` of the key with its `Display`: the key's text form
/// between `ObjectId("` and `")`.
#[verifier::external_body]
fn object_id_value_text(key: &StoreKey) -> (s: String)
    ensures
        s@ == key_value_text(key@),
{
    Bson::ObjectId(ObjectId::from_bytes(key.bytes)).to_string()
}

impl InsertedId {
    /// The printed form of the identifier.
    pub open spec fn spec_text(self) -> Seq<char> {
        match self {
            InsertedId::Key(k) => key_value_text(k@),
            InsertedId::Other(s) => s@,
        }
    }

    /// The key, where the identifier is one.
    pub fn as_object_id(&self) -> (r: Option<StoreKey>)
        ensures
            r == match *self {
                InsertedId::Key(k) => Some(k),
                InsertedId::Other(_) => None,
            },
    {
        match self {
            InsertedId::Key(k) => Some(*k),
            InsertedId::Other(_) => None,
        }
    }

    /// The printed form of the identifier.
    pub fn text(&self) -> (s: String)
        ensures
            s@ == self.spec_text(),
    {
        match self {
            InsertedId::Key(k) => object_id_value_text(k),
            InsertedId::Other(s) => s.clone(),
        }
    }
}

/// The outcome of an insert: the store's report passes through, a driver
/// failure of any kind becomes the layer's own error.
pub fn insert_one<E>(outcome: Result<InsertOneResult, E>) -> (r: Result<InsertOneResult, DbError>)
    ensures
        match outcome {
            Ok(report) => r == Ok::<InsertOneResult, DbError>(report),
            Err(_) => r matches Err(e) && e@ == "Failed to insert_image."@,
        },
{
    match outcome {
        Ok(report) => Ok(report),
        Err(_) => Err(DbError::new("Failed to insert_image.".to_owned())),
    }
}

/// The outcome of a lookup by key: a found document is converted to its
/// entity, no match stays no match, a driver failure becomes the layer's own
/// error.
pub fn find_one<T: ObjectConvertable<U>, U, E>(outcome: Result<Option<T>, E>) -> (r: Result<
    Option<U>,
    DbError,
>)
    ensures
        match outcome {
            Ok(Some(document)) => r matches Ok(Some(object)) && document.converted_to(object),
            Ok(None) => r matches Ok(None),
            Err(_) => r matches Err(e) && e@ == "Failed to find_one."@,
        },
{
    match outcome {
        Ok(Some(document)) => Ok(Some(document.to_object())),
        Ok(None) => Ok(None),
        Err(_) => Err(DbError::new("Failed to find_one.".to_owned())),
    }
}

/// The outcome of listing a collection. The outer result is that of opening
/// the cursor, the inner one that of draining it. Each document is converted
/// to its entity, in order.
pub fn find_all<T: ObjectConvertable<U>, U, E>(outcome: Result<Result<Vec<T>, E>, E>) -> (r: Result<
    Vec<U>,
    DbError,
>)
    ensures
        match outcome {
            Ok(Ok(documents)) => {
                &&& r matches Ok(objects)
                &&& objects@.len() == documents@.len()
                &&& forall|i: int|
                    0 <= i < documents@.len() ==> (#[trigger] documents@[i]).converted_to(
                        objects@[i],
                    )
            },
            Ok(Err(_)) => r matches Err(e) && e@ == "Failed to find_all_recipes:"@,
            Err(_) => r matches Err(e) && e@ == "Failed to find_all_images."@,
        },
{
    match outcome {
        Ok(Ok(documents)) => {
            let mut objects: Vec<U> = Vec::new();
            let mut i: usize = 0;
            while i < documents.len()
                invariant
                    i <= documents@.len(),
                    objects@.len() == i,
                    forall|j: int|
                        0 <= j < i ==> (#[trigger] documents@[j]).converted_to(objects@[j]),
                decreases documents@.len() - i,
            {
                let object = documents[i].to_object();
                objects.push(object);
                i += 1;
            }
            Ok(objects)
        },
        Ok(Err(_)) => Err(DbError::new("Failed to find_all_recipes:".to_owned())),
        Err(_) => Err(DbError::new("Failed to find_all_images.".to_owned())),
    }
}

/// The outcome of replacing a document by key: the document that the store
/// hands back is converted to its entity, no match stays no match, a driver
/// failure becomes the layer's own error.
pub fn update_one<T: ObjectConvertable<U>, U, E>(outcome: Result<Option<T>, E>) -> (r: Result<
    Option<U>,
    DbError,
>)
    ensures
        match outcome {
            Ok(Some(document)) => r matches Ok(Some(object)) && document.converted_to(object),
            Ok(None) => r matches Ok(None),
            Err(_) => r matches Err(e) && e@ == "Failed to update_one."@,
        },
{
    match outcome {
        Ok(Some(document)) => Ok(Some(document.to_object())),
        Ok(None) => Ok(None),
        Err(_) => Err(DbError::new("Failed to update_one.".to_owned())),
    }
}

/// The outcome of a delete by key: the store's report passes through, a
/// driver failure becomes the layer's own error.
pub fn delete_one<E>(outcome: Result<DeleteResult, E>) -> (r: Result<DeleteResult, DbError>)
    ensures
        match outcome {
            Ok(report) => r == Ok::<DeleteResult, DbError>(report),
            Err(_) => r matches Err(e) && e@ == "Failed to delete_one_recipe."@,
        },
{
    match outcome {
        Ok(report) => Ok(report),
        Err(_) => Err(DbError::new("Failed to delete_one_recipe.".to_owned())),
    }
}

} // verus!
