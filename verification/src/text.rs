//! Character-level string utilities shared by the models and services.

use vstd::prelude::*;
use vstd::string::StringExecFns;

verus! {

broadcast use vstd::string::group_string_axioms;

/// Appends one character to a string (`String::push`).
/// Claimed: the new contents are the old contents followed by `c`.
#[verifier::external_body]
pub(crate) fn push_char(s: &mut String, c: char)
    ensures
        final(s)@ == old(s)@.push(c),
{
    s.push(c);
}

/// What escaping single quotes for a SurrealQL string literal does to one character.
pub open spec fn sql_escape_char(c: char) -> Seq<char> {
    if c == '\'' {
        seq!['\'', '\'']
    } else {
        seq![c]
    }
}

/// `s` with every single quote doubled.
pub open spec fn sql_escaped(s: Seq<char>) -> Seq<char>
    decreases s.len(),
{
    if s.len() == 0 {
        Seq::empty()
    } else {
        sql_escaped(s.drop_last()) + sql_escape_char(s.last())
    }
}

/// Doubles every single quote, so that the text can stand between quotes in a query.
pub fn escape_sql_quotes(s: &str) -> (res: String)
    ensures
        res@ == sql_escaped(s@),
{
    let mut res = String::new();
    for c in it: s.chars()
        invariant
            it.seq() == s@,
            res@ == sql_escaped(s@.take(it.index())),
    {
        assert(s@.take(it.index() + 1).drop_last() == s@.take(it.index()));
        push_char(&mut res, c);
        if c == '\'' {
            push_char(&mut res, '\'');
        }
    }
    assert(s@.take(s@.len() as int) == s@);
    res
}


/// A model of reading back a quoted value in which each pair of single quotes
/// stands for one quote (other escapes the query language may have, such as
/// backslashes, are not modelled).
pub open spec fn sql_unescaped(t: Seq<char>) -> Seq<char>
    decreases t.len(),
{
    if t.len() >= 2 && t.last() == '\'' && t[t.len() - 2] == '\'' {
        sql_unescaped(t.drop_last().drop_last()).push('\'')
    } else if t.len() > 0 {
        sql_unescaped(t.drop_last()).push(t.last())
    } else {
        Seq::empty()
    }
}

/// Law: a value with its quotes doubled reads back as the value itself under the
/// quote-pair model `sql_unescaped`.
pub proof fn lemma_sql_escape_round_trip(s: Seq<char>)
    ensures
        sql_unescaped(sql_escaped(s)) == s,
    decreases s.len(),
{
    if s.len() > 0 {
        lemma_sql_escape_round_trip(s.drop_last());
        let e = sql_escaped(s);
        let p = sql_escaped(s.drop_last());
        if s.last() == '\'' {
            assert(e == p + seq!['\'', '\'']);
            assert(e.drop_last().drop_last() == p);
        } else {
            assert(e == p.push(s.last()));
            assert(e.drop_last() == p);
            if e.len() >= 2 {
                assert(e.last() != '\'');
            }
        }
        assert(s.drop_last().push(s.last()) == s);
    }
}

} // verus!

verus! {

/// The character of a decimal digit.
pub open spec fn digit_char(d: nat) -> char
    recommends
        d < 10,
{
    (d + 48) as char
}

/// The decimal digits of `n`, most significant first, without leading zeros.
pub open spec fn nat_decimal(n: nat) -> Seq<char>
    decreases n,
{
    if n < 10 {
        seq![digit_char(n)]
    } else {
        nat_decimal(n / 10).push(digit_char(n % 10))
    }
}

/// How Rust's `Display` writes an integer: a minus sign for negative numbers, then the digits.
pub open spec fn int_decimal(n: int) -> Seq<char> {
    if n < 0 {
        seq!['-'] + nat_decimal((-n) as nat)
    } else {
        nat_decimal(n as nat)
    }
}

/// The value that a sequence of decimal digits denotes.
pub open spec fn digits_value(s: Seq<char>) -> int
    decreases s.len(),
{
    if s.len() == 0 {
        0
    } else {
        digits_value(s.drop_last()) * 10 + (s.last() as int - 48)
    }
}

/// Reads back a number as written by [`int_decimal`].
pub open spec fn decimal_value(s: Seq<char>) -> int {
    if s.len() > 0 && s[0] == '-' {
        -digits_value(s.drop_first())
    } else {
        digits_value(s)
    }
}

fn digit(d: u64) -> (c: char)
    requires
        d < 10,
    ensures
        c == digit_char(d as nat),
{
    let b: u8 = d as u8 + 48;
    b as char
}

fn push_nat_decimal(s: &mut String, v: u64)
    ensures
        final(s)@ == old(s)@ + nat_decimal(v as nat),
    decreases v,
{
    if v >= 10 {
        push_nat_decimal(s, v / 10);
    }
    push_char(s, digit(v % 10));
    proof {
        if v < 10 {
            assert(old(s)@ + nat_decimal(v as nat) == old(s)@.push(digit_char(v as nat)));
        } else {
            assert(old(s)@ + nat_decimal(v as nat) == (old(s)@ + nat_decimal((v / 10) as nat)).push(
                digit_char((v % 10) as nat),
            ));
        }
    }
}

/// Appends the decimal form of `n` (as `format!("{}", n)` writes it) to `s`.
pub fn push_decimal(s: &mut String, n: i64)
    ensures
        final(s)@ == old(s)@ + int_decimal(n as int),
{
    if n < 0 {
        push_char(s, '-');
        let m: u64 = ((-(n + 1)) as u64) + 1;
        push_nat_decimal(s, m);
        assert(old(s)@ + int_decimal(n as int) == old(s)@.push('-') + nat_decimal(m as nat));
    } else {
        push_nat_decimal(s, n as u64);
    }
}

/// The decimal form of `n`, as `n.to_string()` gives it.
pub fn decimal_string(n: i64) -> (res: String)
    ensures
        res@ == int_decimal(n as int),
{
    let mut s = String::new();
    push_decimal(&mut s, n);
    assert(Seq::<char>::empty() + int_decimal(n as int) == int_decimal(n as int));
    s
}

proof fn lemma_nat_decimal_value(n: nat)
    ensures
        digits_value(nat_decimal(n)) == n,
        nat_decimal(n).len() > 0,
        nat_decimal(n)[0] != '-',
        forall|i: int| 0 <= i < nat_decimal(n).len() ==> '0' <= #[trigger] nat_decimal(n)[i] <= '9',
    decreases n,
{
    if n < 10 {
        assert(digit_char(n) as int == n + 48);
        assert(nat_decimal(n).drop_last() == Seq::<char>::empty());
        assert(digits_value(Seq::<char>::empty()) == 0);
    } else {
        lemma_nat_decimal_value(n / 10);
        assert(digit_char(n % 10) as int == n % 10 + 48);
        assert(nat_decimal(n).drop_last() == nat_decimal(n / 10));
        assert(nat_decimal(n).last() == digit_char(n % 10));
        assert(digits_value(nat_decimal(n)) == (n / 10) * 10 + n % 10);
    }
}

/// Law: the decimal text of a number reads back as that number, and
/// consists of an optional minus sign followed by at least one digit.
pub proof fn lemma_decimal_round_trip(n: int)
    ensures
        decimal_value(int_decimal(n)) == n,
        int_decimal(n).len() > 0,
        forall|i: int|
            0 <= i < int_decimal(n).len() ==> ('0' <= #[trigger] int_decimal(n)[i] <= '9') || (i == 0
                && n < 0 && int_decimal(n)[i] == '-'),
{
    if n < 0 {
        let m = (-n) as nat;
        lemma_nat_decimal_value(m);
        assert((seq!['-'] + nat_decimal(m)).drop_first() == nat_decimal(m));
        assert forall|i: int| 0 <= i < int_decimal(n).len() implies ('0' <= #[trigger] int_decimal(
            n,
        )[i] <= '9') || (i == 0 && n < 0 && int_decimal(n)[i] == '-') by {
            if i > 0 {
                assert(int_decimal(n)[i] == nat_decimal(m)[i - 1]);
            }
        }
    } else {
        lemma_nat_decimal_value(n as nat);
    }
}

} // verus!

verus! {

/// What `str::to_lowercase` makes of a text (full Unicode lower-casing).
pub uninterp spec fn lowercase_of(s: Seq<char>) -> Seq<char>;

/// `str::to_lowercase`. Claimed: the result depends on the text alone, and is
/// named `lowercase_of`; nothing more of the Unicode case tables is stated.
#[verifier::external_body]
pub(crate) fn to_lowercase(s: &str) -> (res: String)
    ensures
        res@ == lowercase_of(s@),
{
    s.to_lowercase()
}

/// The text of an optional string, or the empty text when there is none.
pub open spec fn text_or_empty(s: Option<String>) -> Seq<char> {
    match s {
        Some(t) => t@,
        None => Seq::empty(),
    }
}

/// `s.unwrap_or_default()` for an optional string.
pub fn string_or_default(s: Option<String>) -> (res: String)
    ensures
        res@ == text_or_empty(s),
{
    match s {
        Some(t) => t,
        None => String::new(),
    }
}

} // verus!

verus! {

/// `a` followed by `b`, as a new string.
pub fn concat_str(a: &str, b: &str) -> (res: String)
    ensures
        res@ == a@ + b@,
{
    let mut res = a.to_string();
    res.append(b);
    res
}

} // verus!

verus! {

/// The characters with Unicode's `White_Space` property, which is what
/// `char::is_whitespace` tests.
pub open spec fn is_unicode_whitespace(c: char) -> bool {
    ||| '\u{9}' <= c <= '\u{d}'
    ||| c == ' '
    ||| c == '\u{85}'
    ||| c == '\u{a0}'
    ||| c == '\u{1680}'
    ||| '\u{2000}' <= c <= '\u{200a}'
    ||| c == '\u{2028}'
    ||| c == '\u{2029}'
    ||| c == '\u{202f}'
    ||| c == '\u{205f}'
    ||| c == '\u{3000}'
}

/// Whether `c` is white space, as `char::is_whitespace` decides.
pub fn is_whitespace(c: char) -> (res: bool)
    ensures
        res == is_unicode_whitespace(c),
{
    ('\u{9}' <= c && c <= '\u{d}') || c == ' ' || c == '\u{85}' || c == '\u{a0}' || c == '\u{1680}'
        || ('\u{2000}' <= c && c <= '\u{200a}') || c == '\u{2028}' || c == '\u{2029}' || c
        == '\u{202f}' || c == '\u{205f}' || c == '\u{3000}'
}

/// The number of words in `s`: maximal runs of characters that are not white
/// space, which is what `split_whitespace().count()` counts.
pub open spec fn word_count(s: Seq<char>) -> nat
    decreases s.len(),
{
    if s.len() == 0 {
        0
    } else if !is_unicode_whitespace(s.last()) && (s.len() == 1 || is_unicode_whitespace(
        s[s.len() - 2],
    )) {
        word_count(s.drop_last()) + 1
    } else {
        word_count(s.drop_last())
    }
}

/// Words read per minute.
pub const WORDS_PER_MINUTE: u64 = 200;

/// Minutes to read `words` words at [`WORDS_PER_MINUTE`], rounded up, at least
/// one, and at most `i32::MAX` (where the conversion from the rounded quotient saturates).
pub open spec fn reading_minutes(words: nat) -> int {
    if words == 0 {
        1
    } else if (words + 199) / 200 > i32::MAX {
        i32::MAX as int
    } else {
        ((words + 199) / 200) as int
    }
}

/// A count of words that stops growing past the point where it can still change
/// the reading time.
pub open spec fn capped_words(words: nat) -> nat {
    if words > 200 * (i32::MAX as nat) {
        200 * (i32::MAX as nat) + 1
    } else {
        words
    }
}

/// Law: quote doubling leaves text without single quotes as it is, and adds
/// exactly one character for each single quote.
pub proof fn lemma_sql_escape_only_doubles_quotes(s: Seq<char>)
    ensures
        (forall|i: int| 0 <= i < s.len() ==> #[trigger] s[i] != '\'') ==> sql_escaped(s) == s,
        sql_escaped(s).len() == s.len() + s.filter(|c: char| c == '\'').len(),
    decreases s.len(),
{
    reveal_with_fuel(Seq::<_>::filter, 1);
    if s.len() > 0 {
        lemma_sql_escape_only_doubles_quotes(s.drop_last());
        if forall|i: int| 0 <= i < s.len() ==> #[trigger] s[i] != '\'' {
            assert forall|i: int| 0 <= i < s.drop_last().len() implies #[trigger] s.drop_last()[i] != '\'' by {
                assert(s.drop_last()[i] == s[i]);
            }
            assert(s[s.len() - 1] != '\'');
            assert(s.drop_last().push(s.last()) == s);
        }
    }
}

/// Law: white space alone holds no words, a non-empty run without white space
/// is one word, and white space between two texts separates their words, so
/// the count of the whole is the sum of the counts.
pub proof fn lemma_word_count_splits_at_whitespace(a: Seq<char>, w: char, b: Seq<char>)
    requires
        is_unicode_whitespace(w),
    ensures
        word_count(a + seq![w] + b) == word_count(a) + word_count(b),
        (forall|i: int| 0 <= i < a.len() ==> is_unicode_whitespace(#[trigger] a[i])) ==> word_count(a) == 0,
        a.len() > 0 && (forall|i: int| 0 <= i < a.len() ==> !is_unicode_whitespace(#[trigger] a[i]))
            ==> word_count(a) == 1,
    decreases b.len(),
{
    lemma_word_count_of_uniform(a);
    if b.len() == 0 {
        assert(a + seq![w] + b == a.push(w));
        assert(a.push(w).drop_last() == a);
    } else {
        lemma_word_count_splits_at_whitespace(a, w, b.drop_last());
        let left = a + seq![w];
        assert((left + b).drop_last() == left + b.drop_last());
        assert((left + b).last() == b.last());
        assert(left.len() >= 1);
        assert(left[left.len() - 1] == w);
        if b.len() == 1 {
            assert((left + b)[(left + b).len() - 2] == w);
            assert(b.drop_last() == Seq::<char>::empty());
            assert(left + b.drop_last() == left);
            assert(left.drop_last() == a);
            assert(word_count(left) == word_count(a));
        } else {
            assert((left + b)[(left + b).len() - 2] == b[b.len() - 2]);
        }
    }
}

proof fn lemma_word_count_of_uniform(a: Seq<char>)
    ensures
        (forall|i: int| 0 <= i < a.len() ==> is_unicode_whitespace(#[trigger] a[i])) ==> word_count(a) == 0,
        a.len() > 0 && (forall|i: int| 0 <= i < a.len() ==> !is_unicode_whitespace(#[trigger] a[i]))
            ==> word_count(a) == 1,
    decreases a.len(),
{
    if a.len() > 0 {
        lemma_word_count_of_uniform(a.drop_last());
        assert(forall|i: int| 0 <= i < a.drop_last().len() ==> #[trigger] a.drop_last()[i] == a[i]);
        assert(a.last() == a[a.len() - 1]);
        if a.len() > 1 {
            assert(a[a.len() - 2] == a.drop_last()[a.len() - 2]);
        }
    }
}

/// Law: the reading time is the word count divided by 200 and rounded up, with
/// a one-minute minimum for a text without words, and `i32::MAX` once that
/// quotient no longer fits in an `i32`.
pub proof fn lemma_reading_minutes_is_ceiling(words: nat)
    ensures
        words == 0 ==> reading_minutes(words) == 1,
        0 < words <= 200 * (i32::MAX as nat) ==> reading_minutes(words) * 200 >= words
            && (reading_minutes(words) - 1) * 200 < words,
        words > 200 * (i32::MAX as nat) ==> reading_minutes(words) == i32::MAX,
{
}

/// Law: every text takes at least one minute to read, and a text takes no
/// longer than one with at least as many words.
pub proof fn lemma_reading_time_bounds(words: nat, more_words: nat)
    requires
        words <= more_words,
    ensures
        1 <= reading_minutes(words) <= i32::MAX,
        reading_minutes(words) <= reading_minutes(more_words),
{
}

} // verus!
