//! User-defined groupings of repositories.

use vstd::prelude::*;

use crate::repo::RepoId;

verus! {

/// Unique identifier of a collection, the 128 bits of a UUID.
#[derive(Debug, Clone, Copy, PartialEq, Eq, Hash, Structural)]
pub struct CollectionId(pub u128);

impl CollectionId {
    pub fn new() -> (r: Self) {
        CollectionId(crate::sys::fresh_uuid())
    }

    pub fn from_uuid(id: u128) -> (r: Self)
        ensures
            r.0 == id,
    {
        CollectionId(id)
    }
}

/// A user-defined grouping of repositories.
#[derive(Debug, Clone)]
pub struct Collection {
    pub id: CollectionId,
    pub name: String,
    pub description: Option<String>,
}

impl Collection {
    /// A new collection with a fresh identifier.
    pub fn new(name: String, description: Option<String>) -> (r: Collection)
        ensures
            r.name@ == name@,
            r.description == description,
    {
        Collection { id: CollectionId::new(), name, description }
    }
}

/// A membership entry linking a collection to a repository.
#[derive(Debug, Clone)]
pub struct CollectionMember {
    pub collection_id: CollectionId,
    pub repo_id: RepoId,
}

} // verus!
