use crate::db::{empty_id_failure, is_key_text, key_bytes, key_parse_failure, key_text};
use crate::db::{object_id_hex, parse_id, StoreKey};
use crate::errors::{ApiError, ApiErrorView, Status};
use vstd::prelude::*;
use vstd::string::StringExecFns;

pub mod gifs;
pub mod images;
pub mod recipes;

verus! {

/// The failure with which a path identifier that is no key text is answered.
pub open spec fn bad_id_failure(id: Seq<char>) -> ApiErrorView {
    ApiErrorView {
        status: Status::BadRequest,
        description: if id.len() == 0 {
            empty_id_failure()
        } else {
            key_parse_failure(id)
        },
    }
}

/// Validates the identifier of a request path before anything is looked up:
/// a key text gives its key, anything else a bad request that carries the
/// parser's message.
pub fn request_key(id: &String) -> (r: Result<StoreKey, ApiError>)
    ensures
        r is Ok <==> is_key_text(id@),
        match r {
            Ok(k) => is_key_text(id@) && k@ == key_bytes(id@),
            Err(e) => !is_key_text(id@) && e@ == bad_id_failure(id@),
        },
{
    match parse_id(id) {
        Ok(key) => Ok(key),
        Err(err) => Err(ApiError::build(Status::BadRequest, err.details)),
    }
}

/// `prefix` followed by the text form of `key`.
pub fn with_key(prefix: &str, key: &StoreKey) -> (s: String)
    ensures
        s@ == prefix@ + key_text(key@),
{
    let hex = object_id_hex(key);
    prefix.to_owned().concat(hex.as_str())
}

} // verus!
