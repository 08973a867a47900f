//! Where the content store lives, and the pieces of the SurrealQL statements
//! that the models send to it.

use vstd::prelude::*;
use vstd::string::StringExecFns;

use vstd::string::StrSliceExecFns;

use crate::text::{concat_str, escape_sql_quotes, int_decimal, push_decimal, sql_escaped};

verus! {

broadcast use vstd::string::group_string_axioms;

/// The store's directory when the configured address is not a `file://` one.
pub const DEFAULT_DATABASE_PATH: &'static str = "data/portfolio.db";

/// The scheme prefix of a store address on disk.
pub open spec fn file_scheme() -> Seq<char> {
    seq!['f', 'i', 'l', 'e', ':', '/', '/']
}

/// The directory of the store for a configured address: what follows
/// `file://`, or [`DEFAULT_DATABASE_PATH`] for any other address.
pub open spec fn database_path_of(url: Seq<char>) -> Seq<char> {
    if url.len() >= 7 && url.take(7) == file_scheme() {
        url.skip(7)
    } else {
        DEFAULT_DATABASE_PATH@
    }
}

/// The directory of the store for the configured address `database_url`.
pub fn database_path(database_url: &str) -> (res: String)
    ensures
        res@ == database_path_of(database_url@),
{
    let prefix = ['f', 'i', 'l', 'e', ':', '/', '/'];
    let ghost p = file_scheme();
    assert(prefix@ == p);
    let n = database_url.unicode_len();
    if n < 7 {
        return DEFAULT_DATABASE_PATH.to_string();
    }
    let mut i: usize = 0;
    while i < 7
        invariant
            i <= 7,
            n == database_url@.len(),
            n >= 7,
            prefix@ == p,
            p == file_scheme(),
            database_url@.take(i as int) == p.take(i as int),
        decreases 7 - i,
    {
        let c = database_url.get_char(i);
        let d = prefix[i];
        assert(d == p[i as int]);
        if c != d {
            assert(database_url@.take(7)[i as int] != p[i as int]);
            assert(database_url@.take(7) != p);
            return DEFAULT_DATABASE_PATH.to_string();
        }
        assert(database_url@.take(i + 1) == database_url@.take(i as int).push(database_url@[i as int]));
        assert(p.take(i + 1) == p.take(i as int).push(p[i as int]));
        i = i + 1;
    }
    assert(p.take(7) == p);
    database_url.substring_char(7, n).to_string()
}


/// The texts of a list of strings.
pub open spec fn texts(v: Seq<String>) -> Seq<Seq<char>> {
    v.map_values(|s: String| s@)
}

/// `parts` joined with `sep` between each two, as `join` on a slice of strings does.
pub open spec fn joined(parts: Seq<Seq<char>>, sep: Seq<char>) -> Seq<char>
    decreases parts.len(),
{
    if parts.len() == 0 {
        Seq::empty()
    } else if parts.len() == 1 {
        parts[0]
    } else {
        joined(parts.drop_last(), sep) + sep + parts.last()
    }
}

/// `parts.join(sep)`.
pub fn join_strings(parts: &Vec<String>, sep: &str) -> (res: String)
    ensures
        res@ == joined(texts(parts@), sep@),
{
    let mut res = String::new();
    let mut i: usize = 0;
    while i < parts.len()
        invariant
            i <= parts.len(),
            res@ == joined(texts(parts@.take(i as int)), sep@),
        decreases parts.len() - i,
    {
        assert(texts(parts@.take(i + 1)).drop_last() == texts(parts@.take(i as int)));
        assert(texts(parts@.take(i + 1)).last() == parts@[i as int]@);
        if i > 0 {
            res.append(sep);
        }
        res.append(parts[i].as_str());
        i = i + 1;
    }
    assert(parts@.take(parts@.len() as int) == parts@);
    res
}

/// `field = 'value'`.
pub open spec fn quoted_assignment_text(field: Seq<char>, value: Seq<char>) -> Seq<char> {
    field + " = '"@ + value + "'"@
}

/// `field = value`.
pub open spec fn raw_assignment_text(field: Seq<char>, value: Seq<char>) -> Seq<char> {
    field + " = "@ + value
}

/// `field = 'value'`, with `value` put in as it is.
pub fn quoted_assignment(field: &str, value: &str) -> (res: String)
    ensures
        res@ == quoted_assignment_text(field@, value@),
{
    let mut res = concat_str(field, " = '");
    res.append(value);
    res.append("'");
    res
}

/// `field = value`.
pub fn raw_assignment(field: &str, value: &str) -> (res: String)
    ensures
        res@ == raw_assignment_text(field@, value@),
{
    let mut res = concat_str(field, " = ");
    res.append(value);
    res
}

/// `field = 'value'` with the quotes in `value` doubled.
pub fn escaped_assignment(field: &str, value: &str) -> (res: String)
    ensures
        res@ == quoted_assignment_text(field@, sql_escaped(value@)),
{
    let v = escape_sql_quotes(value);
    quoted_assignment(field, v.as_str())
}

/// How `format!("{}", b)` writes a boolean.
pub open spec fn bool_text(b: bool) -> Seq<char> {
    if b {
        "true"@
    } else {
        "false"@
    }
}

/// `field = true` or `field = false`.
pub fn bool_assignment(field: &str, b: bool) -> (res: String)
    ensures
        res@ == raw_assignment_text(field@, bool_text(b)),
{
    if b {
        raw_assignment(field, "true")
    } else {
        raw_assignment(field, "false")
    }
}

/// `field = n` with `n` in decimal.
pub fn int_assignment(field: &str, n: i64) -> (res: String)
    ensures
        res@ == raw_assignment_text(field@, int_decimal(n as int)),
{
    let mut res = concat_str(field, " = ");
    push_decimal(&mut res, n);
    res
}

/// `UPDATE table:id SET assignments RETURN AFTER`.
pub open spec fn update_statement_text(
    table: Seq<char>,
    id: Seq<char>,
    assignments: Seq<Seq<char>>,
) -> Seq<char> {
    "UPDATE "@ + table + ":"@ + id + " SET "@ + joined(assignments, ", "@) + " RETURN AFTER"@
}

/// The statement that sets `assignments` on record `id` of `table` and returns the record.
pub fn update_statement(table: &str, id: &str, assignments: &Vec<String>) -> (res: String)
    ensures
        res@ == update_statement_text(table@, id@, texts(assignments@)),
{
    let mut res = concat_str("UPDATE ", table);
    res.append(":");
    res.append(id);
    res.append(" SET ");
    res.append(join_strings(assignments, ", ").as_str());
    res.append(" RETURN AFTER");
    res
}


/// The assignment of a quoted text field when a new value is given (with its
/// quotes doubled when `escape` holds), and nothing otherwise.
pub open spec fn quoted_if(field: Seq<char>, value: Option<String>, escape: bool) -> Seq<Seq<char>> {
    match value {
        Some(v) => seq![quoted_assignment_text(field, if escape { sql_escaped(v@) } else { v@ })],
        None => Seq::empty(),
    }
}

/// The assignment `field = value` when a value is given, and nothing otherwise.
pub open spec fn raw_if(field: Seq<char>, value: Option<Seq<char>>) -> Seq<Seq<char>> {
    match value {
        Some(v) => seq![raw_assignment_text(field, v)],
        None => Seq::empty(),
    }
}

/// The text of an optional boolean.
pub open spec fn bool_text_of(b: Option<bool>) -> Option<Seq<char>> {
    match b {
        Some(b) => Some(bool_text(b)),
        None => None,
    }
}

/// The decimal text of an optional integer.
pub open spec fn decimal_of(n: Option<i32>) -> Option<Seq<char>> {
    match n {
        Some(n) => Some(int_decimal(n as int)),
        None => None,
    }
}

/// Appends an assignment to the list being built.
pub fn push_assignment(assignments: &mut Vec<String>, a: String)
    ensures
        final(assignments)@ == old(assignments)@.push(a),
        texts(final(assignments)@) == texts(old(assignments)@).push(a@),
{
    assignments.push(a);
    assert(texts(assignments@) == texts(old(assignments)@).push(a@));
}


/// Appends the assignment of a quoted text field when `value` is given.
pub fn push_quoted_if(assignments: &mut Vec<String>, field: &str, value: &Option<String>, escape: bool)
    ensures
        texts(final(assignments)@) == texts(old(assignments)@) + quoted_if(field@, *value, escape),
{
    match value {
        Some(v) => {
            let a = if escape {
                escaped_assignment(field, v.as_str())
            } else {
                quoted_assignment(field, v.as_str())
            };
            push_assignment(assignments, a);
        },
        None => {
            assert(texts(old(assignments)@) + Seq::<Seq<char>>::empty() == texts(old(assignments)@));
        },
    }
}

/// Appends `field = true` or `field = false` when `value` is given.
pub fn push_bool_if(assignments: &mut Vec<String>, field: &str, value: Option<bool>)
    ensures
        texts(final(assignments)@) == texts(old(assignments)@) + raw_if(field@, bool_text_of(value)),
{
    match value {
        Some(b) => push_assignment(assignments, bool_assignment(field, b)),
        None => {
            assert(texts(old(assignments)@) + Seq::<Seq<char>>::empty() == texts(old(assignments)@));
        },
    }
}

/// Appends `field = n` when a number `n` is given.
pub fn push_int_if(assignments: &mut Vec<String>, field: &str, value: Option<i32>)
    ensures
        texts(final(assignments)@) == texts(old(assignments)@) + raw_if(field@, decimal_of(value)),
{
    match value {
        Some(n) => push_assignment(assignments, int_assignment(field, n as i64)),
        None => {
            assert(texts(old(assignments)@) + Seq::<Seq<char>>::empty() == texts(old(assignments)@));
        },
    }
}

} // verus!
