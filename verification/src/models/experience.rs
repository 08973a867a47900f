//! Work experience entries.

use vstd::prelude::*;

use crate::db::surreal::{
    bool_text_of, decimal_of, push_bool_if, push_int_if, push_quoted_if, quoted_if, raw_if, texts,
    update_statement, update_statement_text,
};
use crate::error::AppResult;
use crate::models::{created_record, updated_record, RecordId};
use crate::text::{int_decimal, sql_escaped};

verus! {

/// All entries, in their chosen order.
pub const ALL_EXPERIENCES: &'static str = "SELECT * FROM experiences ORDER BY order_index ASC";

/// The table that holds the entries.
pub const EXPERIENCES_TABLE: &'static str = "experiences";

/// A work experience entry.
#[derive(Debug, Clone, PartialEq, Eq)]
pub struct Experience {
    pub id: Option<RecordId>,
    pub company: String,
    pub role: String,
    pub description: String,
    pub start_date: String,
    pub end_date: Option<String>,
    pub current: bool,
    pub order_index: i32,
}

/// The fields of a new entry.
#[derive(Debug, Clone, PartialEq, Eq)]
pub struct CreateExperience {
    pub company: String,
    pub role: String,
    pub description: String,
    pub start_date: String,
    pub end_date: Option<String>,
    pub current: bool,
    pub order_index: i32,
}

/// The fields to change in an entry; `None` leaves a field as it is.
#[derive(Debug, Clone, PartialEq, Eq)]
pub struct UpdateExperience {
    pub company: Option<String>,
    pub role: Option<String>,
    pub description: Option<String>,
    pub start_date: Option<String>,
    pub end_date: Option<String>,
    pub current: Option<bool>,
    pub order_index: Option<i32>,
}

/// The assignments that an update sets: company, role and description with their
/// quotes doubled, the dates as given, then `current` and `order_index`.
pub open spec fn experience_assignments(d: UpdateExperience) -> Seq<Seq<char>> {
    quoted_if("company"@, d.company, true) + quoted_if("role"@, d.role, true) + quoted_if(
        "description"@,
        d.description,
        true,
    ) + quoted_if("start_date"@, d.start_date, false) + quoted_if("end_date"@, d.end_date, false)
        + raw_if("current"@, bool_text_of(d.current)) + raw_if(
        "order_index"@,
        decimal_of(d.order_index),
    )
}

/// Law: an experience update writes every field it is given, with the given
/// value: company, role and description with their quotes doubled, the dates as
/// given, `current = true` or `current = false`, and the order index in
/// decimal; it writes nothing else, so it writes nothing exactly when no field is given.
pub proof fn lemma_experience_update_writes_given_fields(d: UpdateExperience)
    ensures
        d.company matches Some(x) ==> experience_assignments(d).contains(
            "company = '"@ + sql_escaped(x@) + "'"@,
        ),
        d.role matches Some(x) ==> experience_assignments(d).contains(
            "role = '"@ + sql_escaped(x@) + "'"@,
        ),
        d.description matches Some(x) ==> experience_assignments(d).contains(
            "description = '"@ + sql_escaped(x@) + "'"@,
        ),
        d.start_date matches Some(x) ==> experience_assignments(d).contains(
            "start_date = '"@ + x@ + "'"@,
        ),
        d.end_date matches Some(x) ==> experience_assignments(d).contains(
            "end_date = '"@ + x@ + "'"@,
        ),
        d.current == Some(true) ==> experience_assignments(d).contains("current = true"@),
        d.current == Some(false) ==> experience_assignments(d).contains("current = false"@),
        d.order_index matches Some(n) ==> experience_assignments(d).contains(
            "order_index = "@ + int_decimal(n as int),
        ),
        experience_assignments(d).len() == (if d.company is Some { 1int } else { 0int }) + (
        if d.role is Some {
            1int
        } else {
            0int
        }) + (if d.description is Some { 1int } else { 0int }) + (if d.start_date is Some {
            1int
        } else {
            0int
        }) + (if d.end_date is Some { 1int } else { 0int }) + (if d.current is Some {
            1int
        } else {
            0int
        }) + (if d.order_index is Some { 1int } else { 0int }),
        experience_assignments(d).len() == 0 <==> (d.company is None && d.role is None
            && d.description is None && d.start_date is None && d.end_date is None
            && d.current is None && d.order_index is None),
{
    broadcast use vstd::seq_lib::lemma_seq_concat_contains_all_elements;
    broadcast use vstd::seq_lib::lemma_seq_contains_after_push;

    reveal_strlit(" = '");
    reveal_strlit(" = ");
    reveal_strlit("company");
    reveal_strlit("company = '");
    reveal_strlit("role");
    reveal_strlit("role = '");
    reveal_strlit("description");
    reveal_strlit("description = '");
    reveal_strlit("start_date");
    reveal_strlit("start_date = '");
    reveal_strlit("end_date");
    reveal_strlit("end_date = '");
    reveal_strlit("current");
    reveal_strlit("true");
    reveal_strlit("false");
    reveal_strlit("current = true");
    reveal_strlit("current = false");
    reveal_strlit("order_index");
    reveal_strlit("order_index = ");
    assert("company"@ + " = '"@ == "company = '"@);
    assert("role"@ + " = '"@ == "role = '"@);
    assert("description"@ + " = '"@ == "description = '"@);
    assert("start_date"@ + " = '"@ == "start_date = '"@);
    assert("end_date"@ + " = '"@ == "end_date = '"@);
    assert("current"@ + " = "@ + "true"@ == "current = true"@);
    assert("current"@ + " = "@ + "false"@ == "current = false"@);
    assert("order_index"@ + " = "@ == "order_index = "@);
}

impl Experience {
    /// The entry to store for `data`, not yet given an id.
    pub fn create(data: CreateExperience) -> (res: Experience)
        ensures
            res.id is None,
            res.company == data.company,
            res.role == data.role,
            res.description == data.description,
            res.start_date == data.start_date,
            res.end_date == data.end_date,
            res.current == data.current,
            res.order_index == data.order_index,
    {
        Experience {
            id: None,
            company: data.company,
            role: data.role,
            description: data.description,
            start_date: data.start_date,
            end_date: data.end_date,
            current: data.current,
            order_index: data.order_index,
        }
    }

    /// What the store's answer to a create means.
    pub fn created(stored: Option<Experience>) -> (res: AppResult<Experience>)
        ensures
            stored matches Some(e) ==> res == Ok::<Experience, crate::error::AppError>(e),
            stored is None ==> (res matches Err(crate::error::AppError::DatabaseError(m)) && m@
                == "Failed to create experience"@),
    {
        let r = created_record(stored, "experience");
        proof {
            reveal_strlit("Failed to create ");
            reveal_strlit("experience");
            reveal_strlit("Failed to create experience");
        }
        r
    }

    /// The statement that applies `data` to entry `id`, or `None` when `data`
    /// changes nothing (the entry is then read back as it is).
    pub fn update(id: &str, data: &UpdateExperience) -> (res: Option<String>)
        ensures
            res is None <==> experience_assignments(*data).len() == 0,
            res matches Some(q) ==> q@ == update_statement_text(
                EXPERIENCES_TABLE@,
                id@,
                experience_assignments(*data),
            ),
    {
        let mut updates: Vec<String> = Vec::new();
        assert(texts(updates@) == Seq::<Seq<char>>::empty());
        push_quoted_if(&mut updates, "company", &data.company, true);
        push_quoted_if(&mut updates, "role", &data.role, true);
        push_quoted_if(&mut updates, "description", &data.description, true);
        push_quoted_if(&mut updates, "start_date", &data.start_date, false);
        push_quoted_if(&mut updates, "end_date", &data.end_date, false);
        push_bool_if(&mut updates, "current", data.current);
        push_int_if(&mut updates, "order_index", data.order_index);
        assert(texts(updates@) =~= experience_assignments(*data));
        if updates.len() == 0 {
            return None;
        }
        Some(update_statement(EXPERIENCES_TABLE, id, &updates))
    }

    /// What the store's answer to an update (or, when nothing changed, to a read) means.
    pub fn updated(rows: Vec<Experience>) -> (res: AppResult<Experience>)
        ensures
            rows@.len() > 0 ==> res == Ok::<Experience, crate::error::AppError>(rows@[0]),
            rows@.len() == 0 ==> (res matches Err(crate::error::AppError::NotFound(m)) && m@
                == "Experience not found"@),
    {
        updated_record(rows, "Experience not found")
    }
}

} // verus!
