//! The records the database holds.

pub mod code;
pub mod source;


use vstd::prelude::*;

use crate::util::{DateTime, MAX_UNIX_SECONDS, MIN_UNIX_SECONDS, NANOS_PER_SECOND};

verus! {

/// A source: a person or site that creates, submits or lists codes.
#[derive(Debug)]
pub struct Source {
    pub id: Option<i32>,
    pub name: String,
    pub url: String,
}

/// An API key of a lister source.
#[derive(Debug)]
pub struct ApiKey {
    pub id: Option<i32>,
    #[allow(dead_code)]
    api_key: String,
    pub expired: bool,
    pub source_id: i32,
}

/// A stored code, with the ids of the sources it came from.
#[derive(Debug)]
pub struct Code {
    pub id: Option<i32>,
    pub code: String,
    pub expires_at: DateTime,
    pub submitter_id: i32,
    pub creator_id: i32,
    pub lister_id: i32,
}

/// A code together with its three sources.
#[derive(Debug)]
pub struct FullCode {
    pub code: Code,
    pub lister: Source,
    pub submitter: Source,
    pub creator: Source,
}

/// Law: a code can be listed exactly when all three of its sources carry an id and its expiry
/// lies in the range of the `time` crate, whatever the sources are (a submitter may well be
/// the creator).
pub proof fn lemma_listable_exactly(c: FullCode)
    ensures
        c.listable() <==> (c.lister.id is Some && c.submitter.id is Some && c.creator.id is Some
            && MIN_UNIX_SECONDS <= c.code.expires_at.unix_seconds <= MAX_UNIX_SECONDS
            && c.code.expires_at.nanosecond < NANOS_PER_SECOND),
{
}

impl Clone for Source {
    fn clone(&self) -> (r: Self)
        ensures
            r == *self,
    {
        Source { id: self.id, name: self.name.clone(), url: self.url.clone() }
    }
}

impl FullCode {
    /// The code can be listed: all three sources carry their id, and its expiry is a date-time
    /// the `time` crate can represent.
    pub open spec fn listable(self) -> bool {
        &&& self.lister.id is Some
        &&& self.submitter.id is Some
        &&& self.creator.id is Some
        &&& self.code.expires_at.wf()
    }

    /// The ids the code holds agree with the ids of the sources it carries.
    pub open spec fn linked(self) -> bool {
        &&& self.code.creator_id == self.creator.id->0
        &&& self.code.submitter_id == self.submitter.id->0
        &&& self.code.lister_id == self.lister.id->0
    }

    /// Whether the code can be listed (see `listable`).
    pub fn is_listable(&self) -> (r: bool)
        ensures
            r == self.listable(),
            r <==> (self.lister.id is Some && self.submitter.id is Some && self.creator.id is Some
                && MIN_UNIX_SECONDS <= self.code.expires_at.unix_seconds <= MAX_UNIX_SECONDS
                && self.code.expires_at.nanosecond < NANOS_PER_SECOND),
    {
        self.lister.id.is_some() && self.submitter.id.is_some() && self.creator.id.is_some()
            && self.code.expires_at.in_range()
    }
}

} // verus!
