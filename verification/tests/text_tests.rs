use portfolio::db::surreal::{database_path, join_strings, update_statement, DEFAULT_DATABASE_PATH};
use portfolio::models::post::Post;
use portfolio::services::email::html_escape;
use portfolio::text::{concat_str, decimal_string, escape_sql_quotes, is_whitespace, push_decimal, string_or_default};

#[test]
fn html_escape_replaces_the_five_special_characters() {
    assert_eq!(
        html_escape("<a href=\"x\">Tom & Jerry's</a>"),
        "&lt;a href=&quot;x&quot;&gt;Tom &amp; Jerry&#39;s&lt;/a&gt;"
    );
}

#[test]
fn html_escape_leaves_plain_text_alone() {
    assert_eq!(html_escape("Hello, world"), "Hello, world");
    assert_eq!(html_escape(""), "");
    assert_eq!(html_escape("naïve café ✓"), "naïve café ✓");
}

#[test]
fn html_escape_output_has_no_markup_characters() {
    let out = html_escape("<<>>\"\"''&&");
    assert!(!out.contains('<') && !out.contains('>') && !out.contains('"') && !out.contains('\''));
    assert_eq!(out, "&lt;&lt;&gt;&gt;&quot;&quot;&#39;&#39;&amp;&amp;");
}

#[test]
fn sql_quotes_are_doubled() {
    assert_eq!(escape_sql_quotes("it's"), "it''s");
    assert_eq!(escape_sql_quotes("''"), "''''");
    assert_eq!(escape_sql_quotes("plain"), "plain");
    assert_eq!(escape_sql_quotes(""), "");
}

#[test]
fn sql_escape_reads_back_as_the_value() {
    for s in ["O'Reilly", "'", "a''b", "no quotes", "'start and end'"] {
        let escaped = escape_sql_quotes(s);
        assert_eq!(escaped.replace("''", "'"), s);
    }
}

#[test]
fn decimal_strings_match_display() {
    for n in [0i64, 7, 10, 42, -1, -42, 1234567890, i64::MAX, i64::MIN, i32::MAX as i64, i32::MIN as i64] {
        assert_eq!(decimal_string(n), n.to_string());
    }
}

#[test]
fn decimal_round_trips_through_parse() {
    for n in [0i64, 99, -100, 9_007_199_254_740_993, i64::MIN] {
        assert_eq!(decimal_string(n).parse::<i64>().unwrap(), n);
    }
}

#[test]
fn push_decimal_appends() {
    let mut s = String::from("order_index = ");
    push_decimal(&mut s, -3);
    assert_eq!(s, "order_index = -3");
}

#[test]
fn whitespace_agrees_with_std_on_every_char() {
    for c in (0u32..=0x10FFFF).filter_map(char::from_u32) {
        assert_eq!(is_whitespace(c), c.is_whitespace(), "{:?}", c);
    }
}

#[test]
fn reading_time_agrees_with_word_count() {
    let samples = [
        "",
        "   ",
        "one",
        " two  words ",
        "tab\tseparated\nlines\r\nhere",
        "ideographic\u{3000}space\u{2003}em",
        "no\u{200b}break",
    ];
    for s in samples {
        let words = s.split_whitespace().count();
        let expected = ((words as f64 / 200.0).ceil() as i32).max(1);
        assert_eq!(Post::calculate_reading_time(s), expected, "{:?}", s);
    }
}

#[test]
fn reading_time_rounds_up_by_two_hundred_words() {
    let text = |n: usize| vec!["word"; n].join(" ");
    assert_eq!(Post::calculate_reading_time(""), 1);
    assert_eq!(Post::calculate_reading_time(&text(1)), 1);
    assert_eq!(Post::calculate_reading_time(&text(200)), 1);
    assert_eq!(Post::calculate_reading_time(&text(201)), 2);
    assert_eq!(Post::calculate_reading_time(&text(400)), 2);
    assert_eq!(Post::calculate_reading_time(&text(401)), 3);
    assert_eq!(Post::calculate_reading_time(&text(1000)), 5);
}

#[test]
fn reading_time_is_monotone() {
    let mut last = 0;
    for n in (0..2000).step_by(37) {
        let t = Post::calculate_reading_time(&vec!["w"; n].join(" "));
        assert!(t >= 1 && t >= last);
        last = t;
    }
}

#[test]
fn string_helpers() {
    assert_eq!(string_or_default(None), "");
    assert_eq!(string_or_default(Some("x".to_string())), "x");
    assert_eq!(concat_str("ab", "cd"), "abcd");
    let parts = vec!["a = 1".to_string(), "b = 2".to_string(), "c = 3".to_string()];
    assert_eq!(join_strings(&parts, ", "), "a = 1, b = 2, c = 3");
    assert_eq!(join_strings(&Vec::new(), ", "), "");
    assert_eq!(update_statement("t", "k", &parts), "UPDATE t:k SET a = 1, b = 2, c = 3 RETURN AFTER");
}

#[test]
fn database_path_strips_file_scheme() {
    assert_eq!(database_path("file://data/portfolio.db"), "data/portfolio.db");
    assert_eq!(database_path("file:///var/lib/db"), "/var/lib/db");
    assert_eq!(database_path("file://"), "");
    assert_eq!(database_path("memory"), DEFAULT_DATABASE_PATH);
    assert_eq!(database_path("file:/x"), "data/portfolio.db");
    assert_eq!(database_path("FILE://x"), "data/portfolio.db");
    assert_eq!(database_path(""), "data/portfolio.db");
}

fn html_unescape(t: &str) -> String {
    let mut out = String::new();
    let mut rest = t;
    while !rest.is_empty() {
        let mut matched = false;
        for (entity, c) in [("&amp;", '&'), ("&lt;", '<'), ("&gt;", '>'), ("&quot;", '"'), ("&#39;", '\'')] {
            if rest.starts_with(entity) {
                out.push(c);
                rest = &rest[entity.len()..];
                matched = true;
                break;
            }
        }
        if !matched {
            let c = rest.chars().next().unwrap();
            out.push(c);
            rest = &rest[c.len_utf8()..];
        }
    }
    out
}

#[test]
fn html_escape_round_trips() {
    for s in ["&amp;", "&lt;b&gt;", "a < b && c > 'd' \"e\"", "plain", "", "&#39;&quot;"] {
        assert_eq!(html_unescape(&html_escape(s)), s);
    }
    assert_ne!(html_escape("&lt;"), html_escape("<"));
}
