use vstd::prelude::*;

pub mod customer;
pub mod gif;
pub mod image;
pub mod recipe;
pub mod user_model;

verus! {

/// An entity that can be turned into the document the store keeps for it.
pub trait DocumentConvertable<T> {
    /// Whether `document` is a document that this entity may be turned into.
    spec fn documented_as(&self, document: T) -> bool;

    fn to_document(&self) -> (document: T)
        ensures
            self.documented_as(document),
    ;
}

/// A stored document that can be turned back into the entity handed to clients.
pub trait ObjectConvertable<T> {
    /// Whether `object` is an entity that this document may be turned into.
    spec fn converted_to(&self, object: T) -> bool;

    fn to_object(&self) -> (object: T)
        ensures
            self.converted_to(object),
    ;
}

} // verus!
