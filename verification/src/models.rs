//! The site's content: projects, posts, experience, skills and contact messages.

pub mod experience;
pub mod message;
pub mod post;
pub mod project;
pub mod skill;

use vstd::prelude::*;

verus! {

/// The identity of a stored record: its table and its key within the table.
#[derive(Debug, Clone, PartialEq, Eq)]
pub struct RecordId {
    pub table: String,
    pub key: String,
}

/// What `slug::slugify` makes of a text (transliteration to ASCII included).
pub uninterp spec fn slug_of(text: Seq<char>) -> Seq<char>;

/// A slug as the `slug` crate documents its results: only `a`-`z`, `0`-`9` and
/// `-`, never two dashes in a row, and no dash at either end.
pub open spec fn is_slug(s: Seq<char>) -> bool {
    &&& forall|i: int|
        0 <= i < s.len() ==> ('a' <= #[trigger] s[i] <= 'z') || ('0' <= s[i] <= '9') || s[i]
            == '-'
    &&& forall|i: int| 0 <= i < s.len() - 1 ==> !(#[trigger] s[i] == '-' && s[i + 1] == '-')
    &&& s.len() > 0 ==> s[0] != '-' && s[s.len() - 1] != '-'
}

/// `slug::slugify`. Claimed: the result is a function of the text, named
/// `slug_of`, and it has the form that the crate documents (`is_slug`); the
/// transliteration tables behind it are not stated.
#[verifier::external_body]
pub(crate) fn slugify(text: &str) -> (res: String)
    ensures
        res@ == slug_of(text@),
        is_slug(res@),
{
    slug::slugify(text)
}

/// The first of the rows a query returned, if there is one.
pub fn first_row<T>(rows: Vec<T>) -> (res: Option<T>)
    ensures
        rows@.len() == 0 ==> res is None,
        rows@.len() > 0 ==> res == Some(rows@[0]),
{
    let mut rows = rows;
    if rows.len() == 0 {
        None
    } else {
        Some(rows.remove(0))
    }
}

/// The count that a `count() ... GROUP ALL` query returned: its first row, or 0 when it returned none.
pub fn count_from_rows(counts: Vec<i64>) -> (res: i64)
    ensures
        counts@.len() == 0 ==> res == 0,
        counts@.len() > 0 ==> res == counts@[0],
{
    if counts.len() == 0 {
        0
    } else {
        counts[0]
    }
}

/// The record a create statement returned, or a store error naming `what` when it returned none.
pub fn created_record<T>(created: Option<T>, what: &str) -> (res: Result<T, crate::error::AppError>)
    ensures
        created matches Some(r) ==> res == Ok::<T, crate::error::AppError>(r),
        created is None ==> (res matches Err(crate::error::AppError::DatabaseError(m)) && m@
            == "Failed to create "@ + what@),
{
    match created {
        Some(r) => Ok(r),
        None => Err(crate::error::AppError::DatabaseError(crate::text::concat_str("Failed to create ", what))),
    }
}

/// The first record an update statement returned, or `NotFound(message)` when it returned none.
pub fn updated_record<T>(rows: Vec<T>, message: &str) -> (res: Result<T, crate::error::AppError>)
    ensures
        rows@.len() > 0 ==> res == Ok::<T, crate::error::AppError>(rows@[0]),
        rows@.len() == 0 ==> (res matches Err(crate::error::AppError::NotFound(m)) && m@
            == message@),
{
    match first_row(rows) {
        Some(r) => Ok(r),
        None => Err(crate::error::AppError::NotFound(message.to_string())),
    }
}

} // verus!
