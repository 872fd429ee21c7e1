use idle_champions_codes::auth::ApiKey;
use idle_champions_codes::db::code::{full_codes_from_rows, insert_partial_code_params, CodeRow, InsertCodeParams};
use idle_champions_codes::db::source::inserted_source_id;
use idle_champions_codes::db::{Code, FullCode, Source};
use idle_champions_codes::routes::{
    connection_error, ensure_valid_auth, list_codes_answer, store_code_error, InsertCode, InsertCodeEvent,
};
use idle_champions_codes::util::{
    chars_of, contains_text, date_time_to_string, time_now, time_now_add_week, time_parse_unix, DateTime,
    TimeError, MAX_UNIX_SECONDS, MIN_UNIX_SECONDS, SECONDS_PER_WEEK,
};
use idle_champions_codes::web::{CodeResponse, ErrorResponse, ListCodesResponse, SourceInformation, Status};
use idle_champions_codes::{index, PartialCode};

fn source(id: i32, name: &str) -> Source {
    Source { id: Some(id), name: name.to_string(), url: format!("https://{}.example", name) }
}

fn full_code(id: i32, code: &str, expires: i64, creator: Source, submitter: Source, lister: Source) -> FullCode {
    FullCode {
        code: Code {
            id: Some(id),
            code: code.to_string(),
            expires_at: DateTime { unix_seconds: expires, nanosecond: 0 },
            submitter_id: submitter.id.unwrap(),
            creator_id: creator.id.unwrap(),
            lister_id: lister.id.unwrap(),
        },
        lister,
        submitter,
        creator,
    }
}

fn partial(expires_at: i64, submitter_name: Option<&str>, submitter_url: Option<&str>) -> PartialCode {
    PartialCode {
        code: "HELL-OWOR-LD!!".to_string(),
        expires_at,
        creator_name: "Foo!".to_string(),
        creator_url: "https://foo.creator.bar".to_string(),
        submitter_name: submitter_name.map(|s| s.to_string()),
        submitter_url: submitter_url.map(|s| s.to_string()),
    }
}

#[test]
fn time_parse_unix_accepts_representable_timestamps() {
    assert_eq!(time_parse_unix(0), Ok(DateTime { unix_seconds: 0, nanosecond: 0 }));
    assert_eq!(time_parse_unix(1_806_038_430), Ok(DateTime { unix_seconds: 1_806_038_430, nanosecond: 0 }));
    assert_eq!(time_parse_unix(MAX_UNIX_SECONDS), Ok(DateTime { unix_seconds: MAX_UNIX_SECONDS, nanosecond: 0 }));
    assert_eq!(time_parse_unix(MIN_UNIX_SECONDS), Ok(DateTime { unix_seconds: MIN_UNIX_SECONDS, nanosecond: 0 }));
}

#[test]
fn time_parse_unix_refuses_out_of_range() {
    assert_eq!(time_parse_unix(MAX_UNIX_SECONDS + 1), Err(TimeError::ComponentRange));
    assert_eq!(time_parse_unix(MIN_UNIX_SECONDS - 1), Err(TimeError::ComponentRange));
    assert_eq!(time_parse_unix(i64::MAX), Err(TimeError::ComponentRange));
}

#[test]
fn date_time_prints_as_the_time_crate_does() {
    assert_eq!(date_time_to_string(&DateTime { unix_seconds: 1_546_300_800, nanosecond: 0 }), "2019-01-01 0:00:00.0");
    assert_eq!(date_time_to_string(&DateTime { unix_seconds: 0, nanosecond: 0 }), "1970-01-01 0:00:00.0");
    assert_eq!(date_time_to_string(&DateTime { unix_seconds: 1_806_038_430, nanosecond: 0 }), "2027-03-26 5:20:30.0");
}

#[test]
fn now_plus_week_is_a_week_after_the_clock() {
    let before = time_now();
    let later = time_now_add_week();
    let after = time_now();
    assert!(before.in_range() && after.in_range());
    assert!(later.unix_seconds >= before.unix_seconds + SECONDS_PER_WEEK);
    assert!(later.unix_seconds <= after.unix_seconds + SECONDS_PER_WEEK);
}

#[test]
fn index_lists_the_consumer_routes() {
    let r = index();
    assert_eq!(r.source_url, "https://github.com/Zarthus/idle_champions_codes");
    assert!(r.message.starts_with("Welcome to a simple API for listing Idle Champions Codes!\n"));
    assert!(r.message.ends_with("You will probably want to visit `/v1/codes`"));
    assert_eq!(r.routes.len(), 2);
    assert_eq!(r.routes[0].method, "GET");
    assert_eq!(r.routes[0].path, "/v1/codes?expired=false");
    assert_eq!(r.routes[0].description, "List all currently active codes");
    assert_eq!(r.routes[1].method, "GET");
    assert_eq!(r.routes[1].path, "/v1/codes?expired=true");
    assert_eq!(r.routes[1].description, "List all currently codes, allowing expired codes too");
}

#[test]
fn api_key_reads_back_the_header() {
    let key = ApiKey::from_header(Some("SECRET-REDACTED")).ok().unwrap();
    assert_eq!(key.get(), "SECRET-REDACTED");
}

#[test]
fn api_key_missing_header_is_a_bad_request() {
    let refused = ApiKey::from_header(None);
    match refused {
        Err((status, message)) => {
            assert_eq!(status, Status { code: 400 });
            assert_eq!(message, "Missing token");
        }
        Ok(_) => panic!("a missing header must be refused"),
    }
}

#[test]
fn error_response_keeps_status_and_description_and_drops_debug() {
    let e = ErrorResponse::new(Status::bad_request(), "boom", Some("details".to_string()));
    assert_eq!(e.code(), Status { code: 400 });
    assert_eq!(e.description(), "boom");
    assert_eq!(e.debug(), None);
}

#[test]
fn valid_auth_yields_the_lister() {
    assert_eq!(ensure_valid_auth(Some(7)).ok(), Some(7));
    let e = ensure_valid_auth(None).err().unwrap();
    assert_eq!(e.code().code, 401);
    assert_eq!(e.description(), "Invalid API key");
}

#[test]
fn connection_error_is_internal() {
    let e = connection_error("pool timed out".to_string());
    assert_eq!(e.code().code, 500);
    assert_eq!(e.description(), "Failed to get connection from pool");
    assert_eq!(e.debug(), None);
}

#[test]
fn store_error_recognises_duplicates() {
    let dup = store_code_error("error returned from database: duplicate key value violates unique constraint");
    assert_eq!(dup.code().code, 400);
    assert_eq!(dup.description(), "Failed to store code: Duplicate code");
    let other = store_code_error("null value in column \"code\" violates not-null constraint");
    assert_eq!(other.description(), "Failed to store code: Database Validation Failed");
    let near = store_code_error("duplicate ke");
    assert_eq!(near.description(), "Failed to store code: Database Validation Failed");
}

#[test]
fn text_search_finds_exact_substrings() {
    assert!(contains_text("a duplicate key here", "duplicate key"));
    assert!(contains_text("duplicate key", "duplicate key"));
    assert!(!contains_text("duplicate", "duplicate key"));
    assert!(contains_text("anything", ""));
    assert!(contains_text("ünïcode duplicate key", "duplicate key"));
    assert_eq!(chars_of("héllo"), vec!['h', 'é', 'l', 'l', 'o']);
}

#[test]
fn listing_shows_each_code_and_collects_sources() {
    let alice = source(1, "alice");
    let bob = source(2, "bob");
    let lister = source(3, "lister");
    let codes = vec![
        full_code(10, "AAAA-BBBB-CCCC", 1_000, alice.clone(), bob.clone(), lister.clone()),
        full_code(11, "DDDD-EEEE-FFFF-GGGG", 3_000, bob.clone(), bob.clone(), lister.clone()),
    ];
    let r = ListCodesResponse::from_at(codes, DateTime { unix_seconds: 2_000, nanosecond: 0 });
    assert_eq!(r.codes.len(), 2);
    assert_eq!(r.codes[0].code, "AAAA-BBBB-CCCC");
    assert!(r.codes[0].expired);
    assert_eq!(r.codes[0].expires_at, "1970-01-01 0:16:40.0");
    assert_eq!(r.codes[0].sources, SourceInformation { lister: 3, submitter: 2, source: 1 });
    assert_eq!(r.codes[1].code, "DDDD-EEEE-FFFF-GGGG");
    assert!(!r.codes[1].expired);
    assert_eq!(r.codes[1].sources, SourceInformation { lister: 3, submitter: 2, source: 2 });
    let mut keys: Vec<i32> = r.sources.keys().cloned().collect();
    keys.sort();
    assert_eq!(keys, vec![1, 2, 3]);
    for (k, s) in r.sources.iter() {
        assert_eq!(s.id, Some(*k));
    }
    assert_eq!(r.sources[&1].name, "alice");
}

#[test]
fn listing_expiry_compares_sub_second_parts() {
    let s = source(1, "s");
    let codes = vec![
        full_code(1, "EARLY", 500, s.clone(), s.clone(), s.clone()),
        full_code(2, "LATE", 500, s.clone(), s.clone(), s.clone()),
    ];
    let mut codes = codes;
    codes[0].code.expires_at.nanosecond = 250_000_000;
    codes[1].code.expires_at.nanosecond = 750_000_000;
    let r = ListCodesResponse::from_at(codes, DateTime { unix_seconds: 500, nanosecond: 500_000_000 });
    assert!(r.codes[0].expired);
    assert!(!r.codes[1].expired);
    assert_eq!(r.codes[0].expires_at, "1970-01-01 0:08:20.25");
}

#[test]
fn date_time_prints_its_fraction() {
    assert_eq!(
        date_time_to_string(&DateTime { unix_seconds: 1_546_300_800, nanosecond: 500_000_000 }),
        "2019-01-01 0:00:00.5"
    );
    assert!(!DateTime { unix_seconds: 0, nanosecond: 1_000_000_000 }.in_range());
}

#[test]
fn listing_expiry_is_strictly_before_now() {
    let s = source(1, "s");
    let codes = vec![full_code(1, "X", 500, s.clone(), s.clone(), s.clone())];
    let at_expiry = ListCodesResponse::from_at(codes, DateTime { unix_seconds: 500, nanosecond: 0 });
    assert!(!at_expiry.codes[0].expired);
}

#[test]
fn empty_listing() {
    let r = ListCodesResponse::from(Vec::new());
    assert!(r.codes.is_empty());
    assert!(r.sources.is_empty());
}

#[test]
fn code_response_from_full_code() {
    let s = source(4, "s");
    let c = full_code(9, "CODE", 100, s.clone(), source(5, "t"), source(6, "u"));
    let r = CodeResponse::from_full_code(&c, "printed".to_string(), DateTime { unix_seconds: 101, nanosecond: 0 });
    assert_eq!(r.code, "CODE");
    assert_eq!(r.expires_at, "printed");
    assert!(r.expired);
    assert_eq!(r.sources, SourceInformation { lister: 6, submitter: 5, source: 4 });
}

#[test]
fn list_codes_answer_reports_failures() {
    let e = list_codes_answer(Err("connection reset".to_string())).err().unwrap();
    assert_eq!(e.code().code, 500);
    assert_eq!(e.description(), "Internal Server Error");
    let s = source(1, "s");
    let ok = list_codes_answer(Ok(vec![full_code(1, "X", 1, s.clone(), s.clone(), s.clone())]))
        .ok()
        .unwrap();
    assert_eq!(ok.codes.len(), 1);
    assert!(ok.codes[0].expired);
}

fn row(id: i32, code: &str) -> CodeRow {
    CodeRow {
        code_id: id,
        code: code.to_string(),
        expires_at: DateTime { unix_seconds: 42, nanosecond: 0 },
        creator_id: 1,
        creator_name: "c".to_string(),
        creator_url: "cu".to_string(),
        submitter_id: 2,
        submitter_name: "s".to_string(),
        submitter_url: "su".to_string(),
        lister_id: 3,
        lister_name: "l".to_string(),
        lister_url: "lu".to_string(),
    }
}

#[test]
fn rows_become_full_codes_in_order() {
    let codes = full_codes_from_rows(vec![row(1, "ONE"), row(2, "TWO"), row(3, "THREE")]);
    assert_eq!(codes.len(), 3);
    assert_eq!(codes[0].code.id, Some(1));
    assert_eq!(codes[0].code.code, "ONE");
    assert_eq!(codes[2].code.code, "THREE");
    assert_eq!(codes[1].creator.id, Some(1));
    assert_eq!(codes[1].creator.name, "c");
    assert_eq!(codes[1].submitter.url, "su");
    assert_eq!(codes[1].lister.name, "l");
    assert_eq!(codes[1].code.lister_id, 3);
    assert_eq!(codes[1].code.expires_at, DateTime { unix_seconds: 42, nanosecond: 0 });
    assert!(codes[1].is_listable());
}

#[test]
fn unlisted_codes_are_detected() {
    let mut c = FullCode::from_row(row(1, "X"));
    assert!(c.is_listable());
    c.code.expires_at = DateTime { unix_seconds: MAX_UNIX_SECONDS + 1, nanosecond: 0 };
    assert!(!c.is_listable());
    let mut d = FullCode::from_row(row(1, "X"));
    d.lister.id = None;
    assert!(!d.is_listable());
}

#[test]
fn sources_from_records_and_clones() {
    let s = Source::from_record(5, "name".to_string(), "url".to_string());
    assert_eq!(s.id, Some(5));
    let t = s.clone();
    assert_eq!((t.id, t.name.as_str(), t.url.as_str()), (Some(5), "name", "url"));
    assert_eq!(inserted_source_id(17), 17u64);
}

#[test]
fn insert_params_default_submitter_to_creator() {
    let p = InsertCodeParams::assemble(3, partial(1_806_038_430, None, None), DateTime { unix_seconds: 9, nanosecond: 0 });
    assert_eq!(p.submitter_name, "Foo!");
    assert_eq!(p.submitter_url, "https://foo.creator.bar");
    assert_eq!(p.creator_name, "Foo!");
    assert_eq!(p.lister_source_id, 3);
    assert_eq!(p.code, "HELL-OWOR-LD!!");
    assert_eq!(p.expires_at, DateTime { unix_seconds: 9, nanosecond: 0 });
    let q = InsertCodeParams::assemble(3, partial(0, Some("Bar!"), Some("https://bar.submitter.bar")), DateTime {
        unix_seconds: 9,
        nanosecond: 0,
    });
    assert_eq!(q.submitter_name, "Bar!");
    assert_eq!(q.submitter_url, "https://bar.submitter.bar");
}

#[test]
fn insert_params_take_the_given_expiry_or_a_week_from_now() {
    let p = insert_partial_code_params(3, partial(1_806_038_430, None, Some("https://bar.submitter.bar")));
    assert_eq!(p.expires_at, DateTime { unix_seconds: 1_806_038_430, nanosecond: 0 });
    assert_eq!(p.submitter_name, "Foo!");
    assert_eq!(p.submitter_url, "https://bar.submitter.bar");
    let before = time_now();
    let q = insert_partial_code_params(3, partial(i64::MAX, None, None));
    let after = time_now();
    assert!(q.expires_at.unix_seconds >= before.unix_seconds + SECONDS_PER_WEEK);
    assert!(q.expires_at.unix_seconds <= after.unix_seconds + SECONDS_PER_WEEK);
    assert_eq!(partial(5, None, None).expires_at_to_pdt(), Ok(DateTime { unix_seconds: 5, nanosecond: 0 }));
}

fn answer_of(state: InsertCode) -> Result<i32, ErrorResponse> {
    match state {
        InsertCode::Done(answer) => answer,
        other => panic!("not done: {:?}", other),
    }
}

#[test]
fn insert_flow_stores_for_the_key_owner() {
    let s = InsertCode::start();
    assert!(matches!(s, InsertCode::GetConnection));
    let s = s.step(InsertCodeEvent::Connection(Ok(())));
    assert!(matches!(s, InsertCode::AcquireForAuth));
    let s = s.step(InsertCodeEvent::Connection(Ok(())));
    assert!(matches!(s, InsertCode::CheckApiKey));
    let s = s.step(InsertCodeEvent::ApiKeyLookup(Some(8)));
    assert!(matches!(s, InsertCode::AcquireForStore { lister_source_id: 8 }));
    let s = s.step(InsertCodeEvent::Connection(Ok(())));
    assert!(matches!(s, InsertCode::StoreCode { lister_source_id: 8 }));
    let s = s.step(InsertCodeEvent::Stored(Ok(77)));
    assert_eq!(answer_of(s).ok(), Some(77));
}

#[test]
fn insert_flow_refuses_unknown_keys() {
    let s = InsertCode::start()
        .step(InsertCodeEvent::Connection(Ok(())))
        .step(InsertCodeEvent::Connection(Ok(())))
        .step(InsertCodeEvent::ApiKeyLookup(None));
    let e = answer_of(s).err().unwrap();
    assert_eq!(e.code().code, 401);
    assert_eq!(e.description(), "Invalid API key");
}

#[test]
fn insert_flow_reports_connection_and_store_failures() {
    let e = answer_of(InsertCode::start().step(InsertCodeEvent::Connection(Err("no pool".to_string()))))
        .err()
        .unwrap();
    assert_eq!(e.code().code, 500);
    assert_eq!(e.description(), "Failed to get connection from pool");
    let e = answer_of(
        InsertCode::start()
            .step(InsertCodeEvent::Connection(Ok(())))
            .step(InsertCodeEvent::Connection(Ok(())))
            .step(InsertCodeEvent::ApiKeyLookup(Some(1)))
            .step(InsertCodeEvent::Connection(Err("gone".to_string()))),
    )
    .err()
    .unwrap();
    assert_eq!(e.code().code, 500);
    let e = answer_of(
        InsertCode::start()
            .step(InsertCodeEvent::Connection(Ok(())))
            .step(InsertCodeEvent::Connection(Ok(())))
            .step(InsertCodeEvent::ApiKeyLookup(Some(1)))
            .step(InsertCodeEvent::Connection(Ok(())))
            .step(InsertCodeEvent::Stored(Err("duplicate key value violates unique constraint".to_string()))),
    )
    .err()
    .unwrap();
    assert_eq!(e.code().code, 400);
    assert_eq!(e.description(), "Failed to store code: Duplicate code");
}

#[test]
fn insert_flow_ignores_unexpected_events_and_keeps_answers() {
    let s = InsertCode::start().step(InsertCodeEvent::ApiKeyLookup(Some(1)));
    assert!(matches!(s, InsertCode::GetConnection));
    let done = InsertCode::start()
        .step(InsertCodeEvent::Connection(Ok(())))
        .step(InsertCodeEvent::Connection(Ok(())))
        .step(InsertCodeEvent::ApiKeyLookup(Some(1)))
        .step(InsertCodeEvent::Connection(Ok(())))
        .step(InsertCodeEvent::Stored(Ok(5)))
        .step(InsertCodeEvent::Stored(Ok(6)));
    assert_eq!(answer_of(done).ok(), Some(5));
}
