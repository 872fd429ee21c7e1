//! Codes as the database hands them back, and what is sent to store a new one.

use vstd::prelude::*;

use crate::db::{Code, FullCode, Source};
use crate::util::{representable, time_now_add_week, DateTime, SECONDS_PER_WEEK};
use crate::PartialCode;

verus! {

/// One row of the listing query: a code joined with its creator, submitter and lister.
#[derive(Debug)]
pub struct CodeRow {
    pub code_id: i32,
    pub code: String,
    pub expires_at: DateTime,
    pub creator_id: i32,
    pub creator_name: String,
    pub creator_url: String,
    pub submitter_id: i32,
    pub submitter_name: String,
    pub submitter_url: String,
    pub lister_id: i32,
    pub lister_name: String,
    pub lister_url: String,
}

/// The code a row describes, with the three sources taken from the joined columns.
pub open spec fn full_code_of(row: CodeRow) -> FullCode {
    FullCode {
        code: Code {
            id: Some(row.code_id),
            code: row.code,
            expires_at: row.expires_at,
            submitter_id: row.submitter_id,
            creator_id: row.creator_id,
            lister_id: row.lister_id,
        },
        creator: Source { id: Some(row.creator_id), name: row.creator_name, url: row.creator_url },
        submitter: Source {
            id: Some(row.submitter_id),
            name: row.submitter_name,
            url: row.submitter_url,
        },
        lister: Source { id: Some(row.lister_id), name: row.lister_name, url: row.lister_url },
    }
}

/// Law: the code a row describes keeps each column of the row in its own place: the code's id,
/// text and expiry, and for the creator, the submitter and the lister each its own id (in the
/// code and in the source), name and url.
pub proof fn lemma_full_code_keeps_columns(row: CodeRow)
    ensures
        full_code_of(row).code.id == Some(row.code_id),
        full_code_of(row).code.code == row.code,
        full_code_of(row).code.expires_at == row.expires_at,
        full_code_of(row).code.creator_id == row.creator_id,
        full_code_of(row).code.submitter_id == row.submitter_id,
        full_code_of(row).code.lister_id == row.lister_id,
        full_code_of(row).creator.id == Some(row.creator_id),
        full_code_of(row).creator.name == row.creator_name,
        full_code_of(row).creator.url == row.creator_url,
        full_code_of(row).submitter.id == Some(row.submitter_id),
        full_code_of(row).submitter.name == row.submitter_name,
        full_code_of(row).submitter.url == row.submitter_url,
        full_code_of(row).lister.id == Some(row.lister_id),
        full_code_of(row).lister.name == row.lister_name,
        full_code_of(row).lister.url == row.lister_url,
{
}

/// Law: turning rows into codes keeps their number and order, and each code keeps the columns
/// of its own row.
pub proof fn lemma_rows_keep_their_columns(rows: Seq<CodeRow>, i: int)
    requires
        0 <= i < rows.len(),
    ensures
        rows.map_values(|row: CodeRow| full_code_of(row)).len() == rows.len(),
        rows.map_values(|row: CodeRow| full_code_of(row))[i].code.id == Some(rows[i].code_id),
        rows.map_values(|row: CodeRow| full_code_of(row))[i].code.submitter_id == rows[i].submitter_id,
        rows.map_values(|row: CodeRow| full_code_of(row))[i].code.creator_id == rows[i].creator_id,
        rows.map_values(|row: CodeRow| full_code_of(row))[i].code.lister_id == rows[i].lister_id,
        rows.map_values(|row: CodeRow| full_code_of(row))[i].submitter.id == Some(rows[i].submitter_id),
        rows.map_values(|row: CodeRow| full_code_of(row))[i].creator.id == Some(rows[i].creator_id),
        rows.map_values(|row: CodeRow| full_code_of(row))[i].lister.id == Some(rows[i].lister_id),
{
    lemma_full_code_keeps_columns(rows[i]);
}

impl FullCode {
    /// The code a listing row describes.
    pub fn from_row(row: CodeRow) -> (r: FullCode)
        ensures
            r == full_code_of(row),
            r.linked(),
            r.lister.id is Some && r.submitter.id is Some && r.creator.id is Some,
            r.code.id == Some(row.code_id),
            r.code.code == row.code,
            r.code.expires_at == row.expires_at,
            r.code.creator_id == row.creator_id,
            r.code.submitter_id == row.submitter_id,
            r.code.lister_id == row.lister_id,
            r.creator == (Source { id: Some(row.creator_id), name: row.creator_name, url: row.creator_url }),
            r.submitter == (Source {
                id: Some(row.submitter_id),
                name: row.submitter_name,
                url: row.submitter_url,
            }),
            r.lister == (Source { id: Some(row.lister_id), name: row.lister_name, url: row.lister_url }),
    {
        FullCode {
            code: Code {
                id: Some(row.code_id),
                code: row.code,
                expires_at: row.expires_at,
                submitter_id: row.submitter_id,
                creator_id: row.creator_id,
                lister_id: row.lister_id,
            },
            creator: Source { id: Some(row.creator_id), name: row.creator_name, url: row.creator_url },
            submitter: Source {
                id: Some(row.submitter_id),
                name: row.submitter_name,
                url: row.submitter_url,
            },
            lister: Source { id: Some(row.lister_id), name: row.lister_name, url: row.lister_url },
        }
    }
}

/// The codes the rows of the listing query describe, in the order of the rows.
pub fn full_codes_from_rows(rows: Vec<CodeRow>) -> (r: Vec<FullCode>)
    ensures
        r@ == rows@.map_values(|row: CodeRow| full_code_of(row)),
{
    let ghost all = rows@;
    let mut rows = rows;
    let mut out: Vec<FullCode> = Vec::new();
    let mut taken: Vec<FullCode> = Vec::new();
    // Rows are taken from the back, so the codes are built in reverse and turned round after.
    while rows.len() > 0
        invariant
            rows@.len() + taken@.len() == all.len(),
            rows@ == all.take(rows@.len() as int),
            forall|k: int|
                0 <= k < taken@.len() ==> #[trigger] taken@[k] == full_code_of(
                    all[all.len() - 1 - k],
                ),
        decreases rows@.len(),
    {
        let row = rows.pop().unwrap();
        proof {
            assert(row == all[all.len() - 1 - taken@.len()]);
        }
        taken.push(FullCode::from_row(row));
        assert(rows@ =~= all.take(rows@.len() as int));
    }
    while taken.len() > 0
        invariant
            out@.len() + taken@.len() == all.len(),
            forall|k: int|
                0 <= k < taken@.len() ==> #[trigger] taken@[k] == full_code_of(
                    all[all.len() - 1 - k],
                ),
            forall|k: int| 0 <= k < out@.len() ==> #[trigger] out@[k] == full_code_of(all[k]),
        decreases taken@.len(),
    {
        let c = taken.pop().unwrap();
        out.push(c);
    }
    assert(out@ =~= all.map_values(|row: CodeRow| full_code_of(row)));
    out
}

/// What is sent to the database to store a new code: the creator, the submitter (the creator
/// where none is given), the expiry, the lister and the code itself.
#[derive(Debug)]
pub struct InsertCodeParams {
    pub creator_name: String,
    pub creator_url: String,
    pub submitter_name: String,
    pub submitter_url: String,
    pub expires_at: DateTime,
    pub lister_source_id: i32,
    pub code: String,
}

impl InsertCodeParams {
    /// The parameters for storing `partial_code` for `lister_source_id`, with the given expiry.
    /// An omitted submitter name or url is the creator's.
    pub fn assemble(lister_source_id: i32, partial_code: PartialCode, expires_at: DateTime) -> (r: Self)
        ensures
            r.creator_name == partial_code.creator_name,
            r.creator_url == partial_code.creator_url,
            r.submitter_name == match partial_code.submitter_name {
                Some(name) => name,
                None => partial_code.creator_name,
            },
            r.submitter_url == match partial_code.submitter_url {
                Some(url) => url,
                None => partial_code.creator_url,
            },
            r.expires_at == expires_at,
            r.lister_source_id == lister_source_id,
            r.code == partial_code.code,
    {
        let creator_name = partial_code.creator_name;
        let creator_url = partial_code.creator_url;
        let submitter_name = match partial_code.submitter_name {
            Some(name) => name,
            None => creator_name.clone(),
        };
        let submitter_url = match partial_code.submitter_url {
            Some(url) => url,
            None => creator_url.clone(),
        };
        InsertCodeParams {
            creator_name,
            creator_url,
            submitter_name,
            submitter_url,
            expires_at,
            lister_source_id,
            code: partial_code.code,
        }
    }
}

/// The parameters for storing `partial_code` for `lister_source_id`. The expiry is the given
/// Unix timestamp where the `time` crate can represent it; otherwise the clock is read and the
/// expiry is one week after it.
pub fn insert_partial_code_params(lister_source_id: i32, partial_code: PartialCode) -> (r: InsertCodeParams)
    ensures
        r.creator_name == partial_code.creator_name,
        r.creator_url == partial_code.creator_url,
        r.submitter_name == match partial_code.submitter_name {
            Some(name) => name,
            None => partial_code.creator_name,
        },
        r.submitter_url == match partial_code.submitter_url {
            Some(url) => url,
            None => partial_code.creator_url,
        },
        r.lister_source_id == lister_source_id,
        r.code == partial_code.code,
        representable(partial_code.expires_at as int) ==> r.expires_at == (DateTime {
            unix_seconds: partial_code.expires_at,
            nanosecond: 0,
        }),
        !representable(partial_code.expires_at as int) ==> exists|now: DateTime|
            #![trigger now.wf()]
            now.wf() && r.expires_at.unix_seconds == now.unix_seconds + SECONDS_PER_WEEK
                && r.expires_at.nanosecond == now.nanosecond,
{
    let expires_at = match partial_code.expires_at_to_pdt() {
        Ok(dt) => dt,
        Err(_) => time_now_add_week(),
    };
    InsertCodeParams::assemble(lister_source_id, partial_code, expires_at)
}

} // verus!
