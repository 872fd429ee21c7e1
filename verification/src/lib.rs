//! Verified core of a small web API that lists and stores Idle Champions codes.

pub mod auth;
pub mod db;
pub mod routes;
pub mod util;
pub mod web;

use vstd::prelude::*;

use crate::util::{time_parse_unix, DateTime, TimeError};
use crate::web::ConsumerRoute;

verus! {

/// The welcome page: a message, where the source lives, and the routes consumers can call.
#[derive(Debug)]
pub struct IndexResponse {
    pub message: &'static str,
    pub source_url: &'static str,
    pub routes: Vec<ConsumerRoute>,
}

/// The welcome page of the API.
pub fn index() -> (r: IndexResponse)
    ensures
        r.message@ == "Welcome to a simple API for listing Idle Champions Codes!
This tool is meant to be used with my other idle champions tooling.
You will probably want to visit `/v1/codes`"@,
        r.source_url@ == "https://github.com/Zarthus/idle_champions_codes"@,
        r.routes@.len() == 2,
        r.routes@[0].method@ == "GET"@,
        r.routes@[0].path@ == "/v1/codes?expired=false"@,
        r.routes@[0].description@ == "List all currently active codes"@,
        r.routes@[1].method@ == "GET"@,
        r.routes@[1].path@ == "/v1/codes?expired=true"@,
        r.routes@[1].description@ == "List all currently codes, allowing expired codes too"@,
{
    let mut routes: Vec<ConsumerRoute> = Vec::new();
    routes.push(
        ConsumerRoute {
            method: "GET",
            path: "/v1/codes?expired=false",
            description: "List all currently active codes",
        },
    );
    routes.push(
        ConsumerRoute {
            method: "GET",
            path: "/v1/codes?expired=true",
            description: "List all currently codes, allowing expired codes too",
        },
    );
    IndexResponse {
        message: "Welcome to a simple API for listing Idle Champions Codes!
This tool is meant to be used with my other idle champions tooling.
You will probably want to visit `/v1/codes`",
        source_url: "https://github.com/Zarthus/idle_champions_codes",
        routes,
    }
}

/// A partial code contains all the necessary fields to create a code in the database.
#[derive(Debug)]
pub struct PartialCode {
    /// The code itself, should be 12 or 16 characters long - minus the dashes.
    pub code: String,
    /// The unix timestamp of when the code expires.
    pub expires_at: i64,
    /// The name of the creator - this is the person who created the code or first surfaced it (e.g. a streamer).
    pub creator_name: String,
    /// The url of the creator - this is the person who created the code or first surfaced it (e.g. a streamer).
    pub creator_url: String,
    /// The name of the submitter - this is the person who submitted the code to the source the lister is obtaining from.
    /// This can be identical to the creator if the submitter is the creator, in which case you can omit this field.
    pub submitter_name: Option<String>,
    /// The url of the submitter - this is the person who submitted the code to the source the lister is obtaining from.
    /// This can be identical to the creator if the submitter is the creator, in which case you can omit this field.
    pub submitter_url: Option<String>,
}

impl PartialCode {
    /// The expiry as a date-time read as UTC; fails exactly when the timestamp is outside the
    /// range of the `time` crate.
    pub fn expires_at_to_pdt(&self) -> (r: Result<DateTime, TimeError>)
        ensures
            r is Ok <==> util::representable(self.expires_at as int),
            r matches Ok(dt) ==> dt.unix_seconds == self.expires_at && dt.nanosecond == 0,
            r matches Err(e) ==> e == TimeError::ComponentRange,
    {
        time_parse_unix(self.expires_at)
    }
}

} // verus!
