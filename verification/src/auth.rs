//! The API key a client sends in the `x-api-key` header.

use vstd::prelude::*;

use crate::web::Status;

verus! {

/// The token of the `x-api-key` header of a request.
pub struct ApiKey<'r>(&'r str);

impl<'r> ApiKey<'r> {
    /// The token this key holds.
    pub closed spec fn token(&self) -> Seq<char> {
        self.0@
    }

    /// The token as it was sent.
    pub fn get(&self) -> (r: &str)
        ensures
            r@ == self.token(),
    {
        self.0
    }

    /// Decides on the value of the `x-api-key` header: a present header becomes the key, holding
    /// the header's text unchecked; a missing one is refused with 400 and "Missing token".
    pub fn from_header(header: Option<&'r str>) -> (r: Result<ApiKey<'r>, (Status, &'static str)>)
        ensures
            r is Ok <==> header is Some,
            r matches Ok(key) ==> key.token() == header->0@,
            r matches Err(e) ==> e.0.code == 400 && e.1@ == "Missing token"@,
    {
        match header {
            Some(token) => Ok(ApiKey(token)),
            None => Err((Status::bad_request(), "Missing token")),
        }
    }
}

} // verus!
