use vstd::prelude::*;

use crate::object_id::ObjectId;

verus! {

/// A document kept in a collection of its own in the MongoDB database.
pub trait MongoDbDocument {
    const COLLECTION_NAME: &'static str;

    type Id;
}

/// A document of a database backend, stored under a table name and found
/// again by its identifier.
pub trait DbDocument {
    const NAME: &'static str;

    type Id;

    fn id(&self) -> Self::Id;
}

} // verus!
