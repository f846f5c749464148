use crate::db::{StoreKey, Timestamp};
use vstd::prelude::*;

verus! {

/// A customer as the store keeps it.
#[allow(non_snake_case)]
#[derive(Debug, PartialEq, Eq)]
pub struct CustomerDocument {
    /// Document Id
    pub _id: StoreKey,
    /// customer name
    pub name: String,
    /// created_at
    pub createdAt: Timestamp,
}

/// A customer as clients see it.
#[allow(non_snake_case)]
#[derive(Debug, PartialEq, Eq)]
pub struct Customer {
    /// Document Id
    pub _id: String,
    /// customer name
    pub name: String,
    /// created_at
    pub createdAt: String,
}

/// What a client sends to create a customer.
#[derive(Debug, PartialEq, Eq)]
pub struct CustomerInput {
    /// customer name
    pub name: String,
}

impl Clone for CustomerDocument {
    fn clone(&self) -> (r: Self)
        ensures
            r == *self,
    {
        CustomerDocument { _id: self._id, name: self.name.clone(), createdAt: self.createdAt }
    }
}

impl Clone for Customer {
    fn clone(&self) -> (r: Self)
        ensures
            r == *self,
    {
        Customer {
            _id: self._id.clone(),
            name: self.name.clone(),
            createdAt: self.createdAt.clone(),
        }
    }
}

impl Clone for CustomerInput {
    fn clone(&self) -> (r: Self)
        ensures
            r == *self,
    {
        CustomerInput { name: self.name.clone() }
    }
}

} // verus!
