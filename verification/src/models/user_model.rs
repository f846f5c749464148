use crate::db::StoreKey;
use vstd::prelude::*;

verus! {

/// A user. The identifier is absent until the user is persisted.
#[derive(Debug, PartialEq, Eq)]
pub struct User {
    pub id: Option<StoreKey>,
    pub name: String,
    pub location: String,
    pub title: String,
}

pub struct UserView {
    pub id: Option<Seq<u8>>,
    pub name: Seq<char>,
    pub location: Seq<char>,
    pub title: Seq<char>,
}

impl View for User {
    type V = UserView;

    open spec fn view(&self) -> UserView {
        UserView {
            id: match self.id {
                Some(k) => Some(k@),
                None => None,
            },
            name: self.name@,
            location: self.location@,
            title: self.title@,
        }
    }
}

impl Clone for User {
    fn clone(&self) -> (r: Self)
        ensures
            r == *self,
    {
        User {
            id: self.id,
            name: self.name.clone(),
            location: self.location.clone(),
            title: self.title.clone(),
        }
    }
}

} // verus!
