//! What the routes decide: the answers to a listing, and the steps of storing a new code.

use vstd::prelude::*;
use vstd::string::*;

use crate::db::FullCode;
use crate::util::{contains_chars, contains_text, DateTime};
use crate::web::{all_listable, ErrorResponse, ListCodesResponse, Status};

verus! {

/// `e` is an error answer with status `code`, description `text` and no debug details.
pub open spec fn is_error_answer(e: ErrorResponse, code: u16, text: Seq<char>) -> bool {
    &&& e.status().code == code
    &&& e.description_text() == text
    &&& e.debug_text() is None
}

/// The answer when no database connection could be had: 500, "Failed to get connection from pool".
pub fn connection_error(detail: String) -> (r: ErrorResponse)
    ensures
        is_error_answer(r, 500, "Failed to get connection from pool"@),
{
    ErrorResponse::new(Status::internal_server_error(), "Failed to get connection from pool", Some(detail))
}

/// Decides on the lister an API key belongs to: a key that was found gives its lister's id; an
/// unknown key is refused with 401, "Invalid API key".
pub fn ensure_valid_auth(api_key_lister: Option<i32>) -> (r: Result<i32, ErrorResponse>)
    ensures
        r is Ok <==> api_key_lister is Some,
        r matches Ok(id) ==> api_key_lister == Some(id),
        r matches Err(e) ==> is_error_answer(e, 401, "Invalid API key"@),
{
    match api_key_lister {
        None => Err(ErrorResponse::new(Status::unauthorized(), "Invalid API key", None)),
        Some(id) => Ok(id),
    }
}

/// The description of a failed store: a duplicate when the database's message mentions a
/// duplicate key, a failed validation otherwise.
pub open spec fn store_error_text(db_error: Seq<char>) -> Seq<char> {
    "Failed to store code: "@ + if contains_chars(db_error, "duplicate key"@) {
        "Duplicate code"@
    } else {
        "Database Validation Failed"@
    }
}

/// The answer when the database refused to store a code: 400, with `store_error_text`.
pub fn store_code_error(db_error: &str) -> (r: ErrorResponse)
    ensures
        is_error_answer(r, 400, store_error_text(db_error@)),
{
    let reason = if contains_text(db_error, "duplicate key") {
        "Duplicate code"
    } else {
        "Database Validation Failed"
    };
    let mut text = String::from_str("Failed to store code: ");
    text.append(reason);
    ErrorResponse::new(Status::bad_request(), text.as_str(), Some(String::from_str(db_error)))
}

/// The answer to a listing, given what the database query gave: the listing of the codes it
/// found, judged against the clock, or 500, "Internal Server Error" when it failed.
pub fn list_codes_answer(found: Result<Vec<FullCode>, String>) -> (r: Result<ListCodesResponse, ErrorResponse>)
    requires
        found matches Ok(codes) ==> all_listable(codes@),
    ensures
        r is Ok <==> found is Ok,
        r matches Ok(listing) ==> exists|now: DateTime|
            now.wf() && #[trigger] listing.lists(found->Ok_0@, now),
        r matches Err(e) ==> is_error_answer(e, 500, "Internal Server Error"@),
{
    match found {
        Ok(codes) => {
            let ghost listed = codes@;
            let listing = ListCodesResponse::from(codes);
            let r: Result<ListCodesResponse, ErrorResponse> = Ok(listing);
            proof {
                let now = choose|now: DateTime| now.wf() && #[trigger] listing.lists(listed, now);
                assert(r->Ok_0.lists(found->Ok_0@, now));
            }
            r
        },
        Err(detail) => Err(
            ErrorResponse::new(Status::internal_server_error(), "Internal Server Error", Some(detail)),
        ),
    }
}

/// Where storing a new code stands, and so what is to be done next.
#[derive(Debug)]
pub enum InsertCode {
    /// Take a connection out of the pool.
    GetConnection,
    /// Acquire the connection for looking up the API key.
    AcquireForAuth,
    /// Look up which lister the request's API key belongs to.
    CheckApiKey,
    /// Acquire the connection for storing the code of the lister found.
    AcquireForStore { lister_source_id: i32 },
    /// Store the code for the lister found.
    StoreCode { lister_source_id: i32 },
    /// Answer the request: the id of the stored code, or an error.
    Done(Result<i32, ErrorResponse>),
}

/// What came back from the work a step asked for.
#[derive(Debug)]
pub enum InsertCodeEvent {
    /// A connection was had, or could not be had (with the database's message).
    Connection(Result<(), String>),
    /// The lister the API key belongs to, if the key is known.
    ApiKeyLookup(Option<i32>),
    /// The id of the stored code, or the database's message when it refused.
    Stored(Result<i32, String>),
}

impl InsertCode {
    /// The state a request starts in.
    pub open spec fn initial() -> InsertCode {
        InsertCode::GetConnection
    }

    /// The state is waiting for this kind of event.
    pub open spec fn awaits(self, event: InsertCodeEvent) -> bool {
        match self {
            InsertCode::GetConnection => event is Connection,
            InsertCode::AcquireForAuth => event is Connection,
            InsertCode::CheckApiKey => event is ApiKeyLookup,
            InsertCode::AcquireForStore { .. } => event is Connection,
            InsertCode::StoreCode { .. } => event is Stored,
            InsertCode::Done(_) => false,
        }
    }

    /// `next` is the state after `event` in `self`: a failed connection answers 500, an unknown
    /// key 401, a refused store 400; a found key leads on to storing for its lister, and a
    /// stored code answers its id. An event the state does not wait for changes nothing.
    pub open spec fn steps_to(self, event: InsertCodeEvent, next: InsertCode) -> bool {
        if !self.awaits(event) {
            next == self
        } else {
            match self {
                InsertCode::GetConnection => match event {
                    InsertCodeEvent::Connection(Ok(_)) => next == InsertCode::AcquireForAuth,
                    _ => next matches InsertCode::Done(Err(e)) && is_error_answer(
                        e,
                        500,
                        "Failed to get connection from pool"@,
                    ),
                },
                InsertCode::AcquireForAuth => match event {
                    InsertCodeEvent::Connection(Ok(_)) => next == InsertCode::CheckApiKey,
                    _ => next matches InsertCode::Done(Err(e)) && is_error_answer(
                        e,
                        500,
                        "Failed to get connection from pool"@,
                    ),
                },
                InsertCode::CheckApiKey => match event {
                    InsertCodeEvent::ApiKeyLookup(Some(id)) => next == (InsertCode::AcquireForStore {
                        lister_source_id: id,
                    }),
                    _ => next matches InsertCode::Done(Err(e)) && is_error_answer(
                        e,
                        401,
                        "Invalid API key"@,
                    ),
                },
                InsertCode::AcquireForStore { lister_source_id } => match event {
                    InsertCodeEvent::Connection(Ok(_)) => next == (InsertCode::StoreCode {
                        lister_source_id,
                    }),
                    _ => next matches InsertCode::Done(Err(e)) && is_error_answer(
                        e,
                        500,
                        "Failed to get connection from pool"@,
                    ),
                },
                InsertCode::StoreCode { .. } => match event {
                    InsertCodeEvent::Stored(Ok(id)) => next == InsertCode::Done(Ok(id)),
                    InsertCodeEvent::Stored(Err(msg)) => next matches InsertCode::Done(Err(e))
                        && is_error_answer(e, 400, store_error_text(msg@)),
                    _ => false,
                },
                InsertCode::Done(_) => next == self,
            }
        }
    }

    /// The state a request to store a code starts in.
    pub fn start() -> (r: InsertCode)
        ensures
            r == InsertCode::initial(),
    {
        InsertCode::GetConnection
    }

    /// The next state after `event`.
    pub fn step(self, event: InsertCodeEvent) -> (r: InsertCode)
        ensures
            self.steps_to(event, r),
    {
        match self {
            InsertCode::GetConnection => match event {
                InsertCodeEvent::Connection(Ok(())) => InsertCode::AcquireForAuth,
                InsertCodeEvent::Connection(Err(detail)) => InsertCode::Done(Err(connection_error(detail))),
                _ => InsertCode::GetConnection,
            },
            InsertCode::AcquireForAuth => match event {
                InsertCodeEvent::Connection(Ok(())) => InsertCode::CheckApiKey,
                InsertCodeEvent::Connection(Err(detail)) => InsertCode::Done(Err(connection_error(detail))),
                _ => InsertCode::AcquireForAuth,
            },
            InsertCode::CheckApiKey => match event {
                InsertCodeEvent::ApiKeyLookup(found) => match ensure_valid_auth(found) {
                    Ok(id) => InsertCode::AcquireForStore { lister_source_id: id },
                    Err(e) => InsertCode::Done(Err(e)),
                },
                _ => InsertCode::CheckApiKey,
            },
            InsertCode::AcquireForStore { lister_source_id } => match event {
                InsertCodeEvent::Connection(Ok(())) => InsertCode::StoreCode { lister_source_id },
                InsertCodeEvent::Connection(Err(detail)) => InsertCode::Done(Err(connection_error(detail))),
                _ => InsertCode::AcquireForStore { lister_source_id },
            },
            InsertCode::StoreCode { lister_source_id } => match event {
                InsertCodeEvent::Stored(Ok(id)) => InsertCode::Done(Ok(id)),
                InsertCodeEvent::Stored(Err(msg)) => InsertCode::Done(Err(store_code_error(msg.as_str()))),
                _ => InsertCode::StoreCode { lister_source_id },
            },
            InsertCode::Done(answer) => InsertCode::Done(answer),
        }
    }
}

/// `states` are the states a request passes through as `events` come back, from the start.
pub open spec fn is_run(states: Seq<InsertCode>, events: Seq<InsertCodeEvent>) -> bool {
    &&& states.len() == events.len() + 1
    &&& states[0] == InsertCode::initial()
    &&& forall|k: int|
        #![trigger events[k]]
        0 <= k < events.len() ==> states[k].steps_to(events[k], states[k + 1])
}

/// The lister a state is about to store a code for, if it is at that point.
pub open spec fn storing_for(state: InsertCode) -> Option<i32> {
    match state {
        InsertCode::AcquireForStore { lister_source_id } => Some(lister_source_id),
        InsertCode::StoreCode { lister_source_id } => Some(lister_source_id),
        _ => None,
    }
}

/// Law: a request only gets to storing a code for a lister after the API key lookup found that
/// lister.
pub proof fn lemma_store_only_after_key_found(
    states: Seq<InsertCode>,
    events: Seq<InsertCodeEvent>,
    k: int,
)
    requires
        is_run(states, events),
        0 <= k < states.len(),
    ensures
        storing_for(states[k]) matches Some(lister) ==> exists|j: int|
            0 <= j < k && #[trigger] events[j] == InsertCodeEvent::ApiKeyLookup(Some(lister)),
    decreases k,
{
    if k > 0 {
        lemma_store_only_after_key_found(states, events, k - 1);
        let prev = states[k - 1];
        let e = events[k - 1];
        assert(prev.steps_to(e, states[k]));
        if let Some(lister) = storing_for(states[k]) {
            if storing_for(prev) == Some(lister) {
                let j = choose|j: int|
                    0 <= j < k - 1 && #[trigger] events[j] == InsertCodeEvent::ApiKeyLookup(Some(lister));
                assert(events[j] == InsertCodeEvent::ApiKeyLookup(Some(lister)));
            } else {
                assert(e == InsertCodeEvent::ApiKeyLookup(Some(lister)));
            }
        }
    }
}

/// Law: a request only answers with the id of a code after the store reported that id, from the
/// point of storing a code for a lister.
pub proof fn lemma_success_only_after_store(
    states: Seq<InsertCode>,
    events: Seq<InsertCodeEvent>,
    k: int,
)
    requires
        is_run(states, events),
        0 <= k < states.len(),
    ensures
        states[k] matches InsertCode::Done(Ok(id)) ==> exists|j: int|
            0 <= j < k && #[trigger] events[j] == InsertCodeEvent::Stored(Ok(id))
                && storing_for(states[j]) is Some,
    decreases k,
{
    if k > 0 {
        lemma_success_only_after_store(states, events, k - 1);
        let prev = states[k - 1];
        let e = events[k - 1];
        assert(prev.steps_to(e, states[k]));
        if let InsertCode::Done(Ok(id)) = states[k] {
            if prev matches InsertCode::Done(_) {
                let j = choose|j: int|
                    0 <= j < k - 1 && #[trigger] events[j] == InsertCodeEvent::Stored(Ok(id))
                        && storing_for(states[j]) is Some;
                assert(events[j] == InsertCodeEvent::Stored(Ok(id)));
            } else {
                assert(events[k - 1] == InsertCodeEvent::Stored(Ok(id)));
            }
        }
    }
}

/// Law: once a request has its answer, later events leave the answer as it is.
pub proof fn lemma_answer_is_final(
    states: Seq<InsertCode>,
    events: Seq<InsertCodeEvent>,
    k: int,
    m: int,
)
    requires
        is_run(states, events),
        0 <= k <= m < states.len(),
        states[k] is Done,
    ensures
        states[m] == states[k],
    decreases m - k,
{
    if m > k {
        lemma_answer_is_final(states, events, k, m - 1);
        assert(states[m - 1].steps_to(events[m - 1], states[m]));
    }
}

} // verus!
