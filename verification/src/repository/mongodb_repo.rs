use crate::models::user_model::{User, UserView};
use vstd::prelude::*;

verus! {

/// The document that is inserted for a new user: whatever identifier the
/// client sent is dropped, so that the store assigns one.
pub fn create_user(new_user: User) -> (document: User)
    ensures
        document@ == (UserView { id: None, ..new_user@ }),
{
    User { id: None, name: new_user.name, location: new_user.location, title: new_user.title }
}

} // verus!
