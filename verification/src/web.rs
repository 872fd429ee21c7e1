//! Response values of the API and the errors it answers with.

use std::collections::HashMap;
use vstd::prelude::*;

use crate::db::{FullCode, Source};
use crate::util::{date_time_text, date_time_to_string, earlier, time_now, DateTime};

verus! {

/// An HTTP status, held as its numeric code.
#[derive(Clone, Copy, Debug, PartialEq, Eq, Structural)]
pub struct Status {
    pub code: u16,
}

impl Status {
    /// 400 Bad Request.
    pub fn bad_request() -> (r: Status)
        ensures
            r.code == 400,
    {
        Status { code: 400 }
    }

    /// 401 Unauthorized.
    pub fn unauthorized() -> (r: Status)
        ensures
            r.code == 401,
    {
        Status { code: 401 }
    }

    /// 500 Internal Server Error.
    pub fn internal_server_error() -> (r: Status)
        ensures
            r.code == 500,
    {
        Status { code: 500 }
    }
}

/// The body of an error answer: `{"error": {"code", "description", "debug"}}`.
#[derive(Debug)]
pub struct ErrorResponse {
    error: ErrorResponseInner,
}

/// The inside of an error answer: its status, description and debug details.
#[derive(Debug)]
pub struct ErrorResponseInner {
    code: Status,
    description: String,
    debug: Option<String>,
}

impl ErrorResponse {
    /// The status the answer is sent with.
    pub closed spec fn status(&self) -> Status {
        self.error.code
    }

    /// The description of the error.
    pub closed spec fn description_text(&self) -> Seq<char> {
        self.error.description@
    }

    /// The debug details the answer carries, if any.
    pub closed spec fn debug_text(&self) -> Option<String> {
        self.error.debug
    }

    /// Builds an error answer with the given status and description. Debug details are only kept
    /// in builds that expose them; this build does not, so `debug` is dropped.
    pub fn new(code: Status, error: &str, debug: Option<String>) -> (r: Self)
        ensures
            r.status() == code,
            r.description_text() == error@,
            r.debug_text() is None,
    {
        ErrorResponse {
            error: ErrorResponseInner { code, description: String::from_str(error), debug: None },
        }
    }

    /// The status the answer is sent with.
    pub fn code(&self) -> (r: Status)
        ensures
            r == self.status(),
    {
        self.error.code
    }

    /// The description of the error.
    pub fn description(&self) -> (r: &str)
        ensures
            r@ == self.description_text(),
    {
        self.error.description.as_str()
    }

    /// The debug details, if this build keeps any.
    pub fn debug(&self) -> (r: Option<&str>)
        ensures
            r is Some <==> self.debug_text() is Some,
            r matches Some(s) ==> s@ == self.debug_text()->0@,
    {
        match &self.error.debug {
            Some(d) => Some(d.as_str()),
            None => None,
        }
    }
}

/// A route the index page advertises to consumers.
#[derive(Clone, Copy, Debug)]
pub struct ConsumerRoute {
    pub method: &'static str,
    pub path: &'static str,
    pub description: &'static str,
}

/// The ids of the three sources of a listed code.
#[derive(Clone, Copy, Debug, PartialEq, Eq, Structural)]
pub struct SourceInformation {
    pub lister: i32,
    pub submitter: i32,
    pub source: i32,
}

/// One code as the listing shows it.
#[derive(Debug)]
pub struct CodeResponse {
    pub code: String,
    pub expires_at: String,
    pub expired: bool,
    pub sources: SourceInformation,
}

/// The answer to a listing: the codes, and every source they refer to, keyed by id.
#[derive(Debug)]
pub struct ListCodesResponse {
    pub codes: Vec<CodeResponse>,
    pub sources: HashMap<i32, Source>,
}

/// `r` shows code `c`, with `expires_at_text` as its printed expiry, judged at time `now`.
pub open spec fn shows_code_with_text(
    r: CodeResponse,
    c: FullCode,
    expires_at_text: Seq<char>,
    now: DateTime,
) -> bool {
    &&& r.code@ == c.code.code@
    &&& r.expires_at@ == expires_at_text
    &&& r.expired == earlier(c.code.expires_at, now)
    &&& r.sources == SourceInformation {
        lister: c.lister.id->0,
        submitter: c.submitter.id->0,
        source: c.creator.id->0,
    }
}

/// `r` shows code `c` judged at time `now`, its expiry printed as the `time` crate prints it.
pub open spec fn shows_code(r: CodeResponse, c: FullCode, now: DateTime) -> bool {
    shows_code_with_text(
        r,
        c,
        date_time_text(c.code.expires_at.unix_seconds as int, c.code.expires_at.nanosecond as int),
        now,
    )
}

/// The source table of a listing of `codes`: for each code in turn, its lister, submitter and
/// creator are entered under their ids, a later entry replacing an earlier one.
pub open spec fn sources_of(codes: Seq<FullCode>) -> Map<i32, Source>
    decreases codes.len(),
{
    if codes.len() == 0 {
        Map::empty()
    } else {
        let c = codes.last();
        sources_of(codes.drop_last()).insert(c.lister.id->0, c.lister).insert(
            c.submitter.id->0,
            c.submitter,
        ).insert(c.creator.id->0, c.creator)
    }
}

/// Every code carries the ids of its three sources.
pub open spec fn sources_known(codes: Seq<FullCode>) -> bool {
    forall|i: int|
        0 <= i < codes.len() ==> {
            &&& (#[trigger] codes[i]).lister.id is Some
            &&& codes[i].submitter.id is Some
            &&& codes[i].creator.id is Some
        }
}

/// Every code can be listed (see `FullCode::listable`).
pub open spec fn all_listable(codes: Seq<FullCode>) -> bool {
    forall|i: int| 0 <= i < codes.len() ==> (#[trigger] codes[i]).listable()
}

impl CodeResponse {
    /// Shows a code, given the printed form of its expiry and the time to judge expiry against.
    pub fn from_full_code(c: &FullCode, expires_at_text: String, now: DateTime) -> (r: CodeResponse)
        requires
            c.lister.id is Some,
            c.submitter.id is Some,
            c.creator.id is Some,
        ensures
            shows_code_with_text(r, *c, expires_at_text@, now),
    {
        let lister = match c.lister.id { Some(id) => id, None => 0 };
        let submitter = match c.submitter.id { Some(id) => id, None => 0 };
        let source = match c.creator.id { Some(id) => id, None => 0 };
        CodeResponse {
            code: c.code.code.clone(),
            expires_at: expires_at_text,
            expired: c.code.expires_at.is_before(&now),
            sources: SourceInformation { lister, submitter, source },
        }
    }
}

impl ListCodesResponse {
    /// The response lists `codes` judged at time `now`: one entry per code, in the same order,
    /// and the source table of all of them.
    pub open spec fn lists(self, codes: Seq<FullCode>, now: DateTime) -> bool {
        &&& self.codes@.len() == codes.len()
        &&& forall|i: int| 0 <= i < codes.len() ==> shows_code(#[trigger] self.codes@[i], codes[i], now)
        &&& self.sources@ == sources_of(codes)
    }

    /// Lists `codes`, judging expiry against `now`.
    pub fn from_at(codes: Vec<FullCode>, now: DateTime) -> (r: Self)
        requires
            all_listable(codes@),
        ensures
            r.lists(codes@, now),
    {
        broadcast use vstd::std_specs::hash::group_hash_axioms;

        let mut sources: HashMap<i32, Source> = HashMap::new();
        let mut shown: Vec<CodeResponse> = Vec::new();
        let n = codes.len();
        for i in 0..n
            invariant
                n == codes@.len(),
                all_listable(codes@),
                shown@.len() == i,
                forall|k: int| 0 <= k < i ==> shows_code(#[trigger] shown@[k], codes@[k], now),
                sources@ == sources_of(codes@.take(i as int)),
        {
            let c = &codes[i];
            assert(c.listable());
            let lister = match c.lister.id { Some(id) => id, None => 0 };
            let submitter = match c.submitter.id { Some(id) => id, None => 0 };
            let creator = match c.creator.id { Some(id) => id, None => 0 };
            sources.insert(lister, c.lister.clone());
            sources.insert(submitter, c.submitter.clone());
            sources.insert(creator, c.creator.clone());
            let text = date_time_to_string(&c.code.expires_at);
            shown.push(CodeResponse::from_full_code(c, text, now));
            assert(codes@.take(i + 1).drop_last() =~= codes@.take(i as int));
        }
        assert(codes@.take(n as int) =~= codes@);
        ListCodesResponse { codes: shown, sources }
    }

    /// Lists `codes`, judging expiry against the current time. The clock decides which codes
    /// count as expired; whatever it read, the response lists the codes at some representable time.
    pub fn from(codes: Vec<FullCode>) -> (r: Self)
        requires
            all_listable(codes@),
        ensures
            exists|now: DateTime| now.wf() && #[trigger] r.lists(codes@, now),
    {
        let now = time_now();
        let r = Self::from_at(codes, now);
        assert(now.wf() && r.lists(codes@, now));
        r
    }
}

/// One of the three source ids of code `c` is `k`.
pub open spec fn refers_to(c: FullCode, k: i32) -> bool {
    k == c.lister.id->0 || k == c.submitter.id->0 || k == c.creator.id->0
}

/// `s` is the lister, the submitter or the creator of code `c`, and `k` is its id.
pub open spec fn is_source_of(c: FullCode, k: i32, s: Source) -> bool {
    ||| k == c.lister.id->0 && s == c.lister
    ||| k == c.submitter.id->0 && s == c.submitter
    ||| k == c.creator.id->0 && s == c.creator
}

/// Sources of `codes` that share an id are the same source, as they are when they come from
/// one table keyed by id.
pub open spec fn sources_agree(codes: Seq<FullCode>) -> bool {
    forall|i: int, j: int, k: i32, s1: Source, s2: Source|
        0 <= i < codes.len() && 0 <= j < codes.len() && #[trigger] is_source_of(codes[i], k, s1)
            && #[trigger] is_source_of(codes[j], k, s2) ==> s1 == s2
}

/// The codes of `codes` before the last one carry their source ids too.
proof fn lemma_sources_known_prefix(codes: Seq<FullCode>)
    requires
        sources_known(codes),
        codes.len() > 0,
    ensures
        sources_known(codes.drop_last()),
{
    let prefix = codes.drop_last();
    assert forall|i: int| 0 <= i < prefix.len() implies {
        &&& (#[trigger] prefix[i]).lister.id is Some
        &&& prefix[i].submitter.id is Some
        &&& prefix[i].creator.id is Some
    } by {
        assert(prefix[i] == codes[i]);
    }
}

/// The source table of `codes` holds each source of each code.
pub proof fn lemma_sources_of_covers(codes: Seq<FullCode>, i: int)
    requires
        0 <= i < codes.len(),
    ensures
        sources_of(codes).contains_key(codes[i].lister.id->0),
        sources_of(codes).contains_key(codes[i].submitter.id->0),
        sources_of(codes).contains_key(codes[i].creator.id->0),
    decreases codes.len(),
{
    if i < codes.len() - 1 {
        let prefix = codes.drop_last();
        lemma_sources_of_covers(prefix, i);
        assert(prefix[i] == codes[i]);
    }
}

/// Every entry of the source table of `codes` is the source with the id it is keyed by, and
/// every key is the id of a source of some code.
pub proof fn lemma_sources_of_keys(codes: Seq<FullCode>, k: i32)
    requires
        sources_known(codes),
        sources_of(codes).contains_key(k),
    ensures
        sources_of(codes)[k].id == Some(k),
        exists|i: int| 0 <= i < codes.len() && refers_to(#[trigger] codes[i], k),
        exists|i: int| 0 <= i < codes.len() && #[trigger] is_source_of(codes[i], k, sources_of(codes)[k]),
    decreases codes.len(),
{
    let last = codes.len() - 1;
    let c = codes[last];
    assert(c.lister.id is Some && c.submitter.id is Some && c.creator.id is Some);
    if !refers_to(c, k) {
        let prefix = codes.drop_last();
        lemma_sources_known_prefix(codes);
        lemma_sources_of_keys(prefix, k);
        let j = choose|j: int| 0 <= j < prefix.len() && refers_to(#[trigger] prefix[j], k);
        assert(prefix[j] == codes[j]);
        let j2 = choose|j: int| 0 <= j < prefix.len() && #[trigger] is_source_of(prefix[j], k, sources_of(prefix)[k]);
        assert(prefix[j2] == codes[j2]);
        assert(sources_of(codes)[k] == sources_of(prefix)[k]);
        assert(is_source_of(codes[j2], k, sources_of(codes)[k]));
    } else {
        assert(refers_to(codes[last], k));
        assert(is_source_of(codes[last], k, sources_of(codes)[k]));
    }
}

/// Law: when the sources of `codes` that share an id are the same source, each code's lister,
/// submitter and creator are the very entries of the source table under their ids.
pub proof fn lemma_sources_of_holds_each_source(codes: Seq<FullCode>, i: int)
    requires
        sources_known(codes),
        sources_agree(codes),
        0 <= i < codes.len(),
    ensures
        sources_of(codes)[codes[i].lister.id->0] == codes[i].lister,
        sources_of(codes)[codes[i].submitter.id->0] == codes[i].submitter,
        sources_of(codes)[codes[i].creator.id->0] == codes[i].creator,
{
    let c = codes[i];
    lemma_sources_of_covers(codes, i);
    let table = sources_of(codes);
    let kl = c.lister.id->0;
    let ks = c.submitter.id->0;
    let kc = c.creator.id->0;
    lemma_sources_of_keys(codes, kl);
    let jl = choose|j: int| 0 <= j < codes.len() && #[trigger] is_source_of(codes[j], kl, table[kl]);
    assert(is_source_of(codes[i], kl, c.lister));
    lemma_sources_of_keys(codes, ks);
    let js = choose|j: int| 0 <= j < codes.len() && #[trigger] is_source_of(codes[j], ks, table[ks]);
    assert(is_source_of(codes[i], ks, c.submitter));
    lemma_sources_of_keys(codes, kc);
    let jc = choose|j: int| 0 <= j < codes.len() && #[trigger] is_source_of(codes[j], kc, table[kc]);
    assert(is_source_of(codes[i], kc, c.creator));
}

/// Law of the listing: every source id a listed code refers to is a key of the source table;
/// each entry of the table is the source with the id it is keyed by; and the table holds no
/// source that no listed code refers to.
pub proof fn lemma_listing_sources_consistent(r: ListCodesResponse, codes: Seq<FullCode>, now: DateTime)
    requires
        r.lists(codes, now),
        sources_known(codes),
    ensures
        forall|i: int|
            0 <= i < r.codes@.len() ==> {
                &&& r.sources@.contains_key((#[trigger] r.codes@[i]).sources.lister)
                &&& r.sources@.contains_key(r.codes@[i].sources.submitter)
                &&& r.sources@.contains_key(r.codes@[i].sources.source)
            },
        forall|k: i32| #[trigger] r.sources@.contains_key(k) ==> r.sources@[k].id == Some(k),
        forall|k: i32| #[trigger]
            r.sources@.contains_key(k) ==> exists|i: int|
                0 <= i < r.codes@.len() && {
                    ||| k == (#[trigger] r.codes@[i]).sources.lister
                    ||| k == r.codes@[i].sources.submitter
                    ||| k == r.codes@[i].sources.source
                },
        forall|k: i32| #[trigger]
            r.sources@.contains_key(k) ==> exists|i: int|
                0 <= i < codes.len() && #[trigger] is_source_of(codes[i], k, r.sources@[k]),
        sources_agree(codes) ==> forall|i: int|
            0 <= i < codes.len() ==> {
                &&& r.sources@[(#[trigger] codes[i]).lister.id->0] == codes[i].lister
                &&& r.sources@[codes[i].submitter.id->0] == codes[i].submitter
                &&& r.sources@[codes[i].creator.id->0] == codes[i].creator
            },
{
    assert forall|k: i32| #[trigger] r.sources@.contains_key(k) implies exists|i: int|
        0 <= i < codes.len() && #[trigger] is_source_of(codes[i], k, r.sources@[k]) by {
        lemma_sources_of_keys(codes, k);
    }
    if sources_agree(codes) {
        assert forall|i: int| 0 <= i < codes.len() implies {
            &&& r.sources@[(#[trigger] codes[i]).lister.id->0] == codes[i].lister
            &&& r.sources@[codes[i].submitter.id->0] == codes[i].submitter
            &&& r.sources@[codes[i].creator.id->0] == codes[i].creator
        } by {
            lemma_sources_of_holds_each_source(codes, i);
        }
    }
    assert forall|i: int| 0 <= i < r.codes@.len() implies {
        &&& r.sources@.contains_key((#[trigger] r.codes@[i]).sources.lister)
        &&& r.sources@.contains_key(r.codes@[i].sources.submitter)
        &&& r.sources@.contains_key(r.codes@[i].sources.source)
    } by {
        lemma_sources_of_covers(codes, i);
        assert(shows_code(r.codes@[i], codes[i], now));
    }
    assert forall|k: i32| #[trigger] r.sources@.contains_key(k) implies r.sources@[k].id == Some(k)
        by {
        lemma_sources_of_keys(codes, k);
    }
    assert forall|k: i32| #[trigger] r.sources@.contains_key(k) implies exists|i: int|
        0 <= i < r.codes@.len() && {
            ||| k == (#[trigger] r.codes@[i]).sources.lister
            ||| k == r.codes@[i].sources.submitter
            ||| k == r.codes@[i].sources.source
        } by {
        lemma_sources_of_keys(codes, k);
        let j = choose|j: int| 0 <= j < codes.len() && refers_to(#[trigger] codes[j], k);
        assert(shows_code(r.codes@[j], codes[j], now));
    }
}

} // verus!
