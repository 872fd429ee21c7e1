//! Sources as the database hands them back.

use vstd::prelude::*;

use crate::db::Source;

verus! {

impl Source {
    /// The source a `select id, name, url from sources` row describes.
    pub fn from_record(id: i32, name: String, url: String) -> (r: Source)
        ensures
            r.id == Some(id),
            r.name == name,
            r.url == url,
    {
        Source { id: Some(id), name, url }
    }
}

/// The id of a newly inserted source, as an unsigned number. Ids the database hands out are
/// positive; a negative one is not a valid id.
pub fn inserted_source_id(id: i32) -> (r: u64)
    requires
        id >= 0,
    ensures
        r == id,
{
    id as u64
}

} // verus!
