//! Blog posts.

use vstd::prelude::*;

use crate::db::surreal::{
    bool_text_of, push_assignment, push_bool_if, push_quoted_if, quoted_assignment,
    quoted_assignment_text, quoted_if, raw_assignment_text, raw_if, texts, update_statement,
    update_statement_text, escaped_assignment, int_assignment,
};
use crate::error::AppResult;
use crate::models::{created_record, slug_of, slugify, updated_record, RecordId};
use crate::text::{capped_words, int_decimal, is_unicode_whitespace, is_whitespace, reading_minutes, sql_escaped, word_count};

verus! {

broadcast use vstd::string::group_string_axioms;

/// All posts, newest first.
pub const ALL_POSTS: &'static str = "SELECT * FROM posts ORDER BY created_at DESC";

/// The published posts, newest first.
pub const PUBLISHED_POSTS: &'static str = "SELECT * FROM posts WHERE published = true ORDER BY created_at DESC";

/// The published posts that carry the tag bound to `$tag`, newest first.
pub const POSTS_BY_TAG: &'static str = "SELECT * FROM posts WHERE $tag IN tags AND published = true ORDER BY created_at DESC";

/// The post whose slug is bound to `$slug`.
pub const POST_BY_SLUG: &'static str = "SELECT * FROM posts WHERE slug = $slug LIMIT 1";

/// The newest published posts, as many as bound to `$limit`.
pub const RECENT_POSTS: &'static str = "SELECT * FROM posts WHERE published = true ORDER BY created_at DESC LIMIT $limit";

/// The number of posts.
pub const COUNT_POSTS: &'static str = "SELECT count() as count FROM posts GROUP ALL";

/// The number of published posts.
pub const COUNT_PUBLISHED_POSTS: &'static str = "SELECT count() as count FROM posts WHERE published = true GROUP ALL";

/// The table that holds the posts.
pub const POSTS_TABLE: &'static str = "posts";

/// A blog post.
#[derive(Debug, Clone, PartialEq, Eq)]
pub struct Post {
    pub id: Option<RecordId>,
    pub title: String,
    pub slug: String,
    pub excerpt: String,
    pub content: String,
    pub tags: Vec<String>,
    pub published: bool,
    pub reading_time: i32,
    pub created_at: Option<String>,
    pub updated_at: Option<String>,
}

/// The fields of a new post.
#[derive(Debug, Clone, PartialEq, Eq)]
pub struct CreatePost {
    pub title: String,
    pub excerpt: String,
    pub content: String,
    pub tags: Vec<String>,
    pub published: bool,
}

/// The fields to change in a post; `None` leaves a field as it is.
#[derive(Debug, Clone, PartialEq, Eq)]
pub struct UpdatePost {
    pub title: Option<String>,
    pub excerpt: Option<String>,
    pub content: Option<String>,
    pub tags: Option<Vec<String>>,
    pub published: Option<bool>,
}

/// What `pulldown_cmark` renders of a Markdown text with its default options.
pub uninterp spec fn markdown_html(markdown: Seq<char>) -> Seq<char>;

/// Renders Markdown to HTML with `pulldown_cmark::Parser::new` and
/// `pulldown_cmark::html::push_html` into an empty string. Claimed: the HTML is a
/// function of the Markdown text, named `markdown_html`; the CommonMark rendering
/// rules themselves are not stated.
#[verifier::external_body]
fn render_markdown(markdown: &str) -> (res: String)
    ensures
        res@ == markdown_html(markdown@),
{
    let parser = pulldown_cmark::Parser::new(markdown);
    let mut html = String::new();
    pulldown_cmark::html::push_html(&mut html, parser);
    html
}

/// The reading time stored with a post of this content.
pub open spec fn post_reading_time(content: Seq<char>) -> int {
    reading_minutes(word_count(content))
}

/// The assignments that an update sets: always `updated_at`; for a new title the
/// title with its quotes doubled and the slug made from it; the excerpt and the
/// content with their quotes doubled, with the reading time of a new content;
/// and `published`. Tags are not changed by an update.
pub open spec fn post_assignments(d: UpdatePost) -> Seq<Seq<char>> {
    seq!["updated_at = time::now()"@] + match d.title {
        Some(t) => seq![
            quoted_assignment_text("title"@, sql_escaped(t@)),
            quoted_assignment_text("slug"@, slug_of(t@)),
        ],
        None => Seq::empty(),
    } + quoted_if("excerpt"@, d.excerpt, true) + match d.content {
        Some(c) => seq![
            quoted_assignment_text("content"@, sql_escaped(c@)),
            raw_assignment_text("reading_time"@, int_decimal(post_reading_time(c@))),
        ],
        None => Seq::empty(),
    } + raw_if("published"@, bool_text_of(d.published))
}

/// Law: every update stamps `updated_at` first, and an update that changes the
/// title sets the slug that creating a post with that title stores.
pub proof fn lemma_update_keeps_slug_with_title(d: UpdatePost)
    ensures
        post_assignments(d)[0] == "updated_at = time::now()"@,
        d.title matches Some(t) ==> post_assignments(d)[2] == quoted_assignment_text(
            "slug"@,
            slug_of(t@),
        ),
{
}

/// The number of fields an update of a post is given (tags aside, which an update never writes).
pub open spec fn post_fields_given(d: UpdatePost) -> int {
    (if d.title is Some { 2int } else { 0int }) + (if d.excerpt is Some { 1int } else { 0int }) + (
    if d.content is Some {
        2int
    } else {
        0int
    }) + (if d.published is Some { 1int } else { 0int })
}

/// Law: a post update stamps the time and writes every field it is given, with
/// the given value: the title (quotes doubled) together with its slug, the
/// excerpt and content (quotes doubled), the content's reading time in whole
/// minutes, and `published = true` or `published = false` as given; and it
/// writes nothing else.
pub proof fn lemma_post_update_writes_given_fields(d: UpdatePost)
    ensures
        post_assignments(d).contains("updated_at = time::now()"@),
        d.title matches Some(t) ==> post_assignments(d).contains("title = '"@ + sql_escaped(t@) + "'"@)
            && post_assignments(d).contains("slug = '"@ + slug_of(t@) + "'"@),
        d.excerpt matches Some(e) ==> post_assignments(d).contains(
            "excerpt = '"@ + sql_escaped(e@) + "'"@,
        ),
        d.content matches Some(c) ==> post_assignments(d).contains(
            "content = '"@ + sql_escaped(c@) + "'"@,
        ) && post_assignments(d).contains(
            "reading_time = "@ + int_decimal(reading_minutes(word_count(c@))),
        ),
        d.published == Some(true) ==> post_assignments(d).contains("published = true"@),
        d.published == Some(false) ==> post_assignments(d).contains("published = false"@),
        post_assignments(d).len() == 1 + post_fields_given(d),
{
    broadcast use vstd::seq_lib::lemma_seq_concat_contains_all_elements;
    broadcast use vstd::seq_lib::lemma_seq_contains_after_push;

    reveal_strlit("title");
    reveal_strlit(" = '");
    reveal_strlit("title = '");
    reveal_strlit("slug");
    reveal_strlit("slug = '");
    reveal_strlit("excerpt");
    reveal_strlit("excerpt = '");
    reveal_strlit("content");
    reveal_strlit("content = '");
    reveal_strlit("reading_time");
    reveal_strlit(" = ");
    reveal_strlit("reading_time = ");
    reveal_strlit("published");
    reveal_strlit("true");
    reveal_strlit("false");
    reveal_strlit("published = true");
    reveal_strlit("published = false");
    assert("title"@ + " = '"@ == "title = '"@);
    assert("slug"@ + " = '"@ == "slug = '"@);
    assert("excerpt"@ + " = '"@ == "excerpt = '"@);
    assert("content"@ + " = '"@ == "content = '"@);
    assert("reading_time"@ + " = "@ == "reading_time = "@);
    assert("published"@ + " = "@ + "true"@ == "published = true"@);
    assert("published"@ + " = "@ + "false"@ == "published = false"@);
    assert(seq!["updated_at = time::now()"@].contains("updated_at = time::now()"@));
}

impl Post {
    /// The post's content rendered from Markdown to HTML.
    pub fn content_html(&self) -> (res: String)
        ensures
            res@ == markdown_html(self.content@),
    {
        render_markdown(self.content.as_str())
    }

    /// The reading time of a text in minutes: its words at 200 a minute, rounded
    /// up, and at least one minute.
    pub fn calculate_reading_time(content: &str) -> (res: i32)
        ensures
            res == reading_minutes(word_count(content@)),
    {
        let cap: u64 = 200 * (i32::MAX as u64) + 1;
        let mut words: u64 = 0;
        let mut prev_space: bool = true;
        for c in it: content.chars()
            invariant
                it.seq() == content@,
                cap == 200 * (i32::MAX as nat) + 1,
                words == capped_words(word_count(content@.take(it.index()))),
                prev_space <==> (it.index() == 0 || is_unicode_whitespace(content@[it.index() - 1])),
        {
            let ghost i = it.index();
            assert(content@.take(i + 1).drop_last() == content@.take(i));
            assert(content@.take(i + 1).last() == c);
            assert(i > 0 ==> content@.take(i + 1)[i - 1] == content@[i - 1]);
            let space = is_whitespace(c);
            if !space && prev_space && words < cap {
                words = words + 1;
            }
            prev_space = space;
        }
        assert(content@.take(content@.len() as int) == content@);
        if words == 0 {
            1
        } else {
            let minutes: u64 = (words + 199) / 200;
            if minutes > i32::MAX as u64 {
                i32::MAX
            } else {
                minutes as i32
            }
        }
    }

    /// The post to store for `data`: its slug made from the title, its reading
    /// time from the content, not yet given an id or timestamps.
    pub fn create(data: CreatePost) -> (res: Post)
        ensures
            res.id is None,
            res.title == data.title,
            res.slug@ == slug_of(data.title@),
            res.excerpt == data.excerpt,
            res.content == data.content,
            res.tags == data.tags,
            res.published == data.published,
            res.reading_time == post_reading_time(data.content@),
            res.created_at is None,
            res.updated_at is None,
    {
        let slug = slugify(data.title.as_str());
        let reading_time = Self::calculate_reading_time(data.content.as_str());
        Post {
            id: None,
            title: data.title,
            slug,
            excerpt: data.excerpt,
            content: data.content,
            tags: data.tags,
            published: data.published,
            reading_time,
            created_at: None,
            updated_at: None,
        }
    }

    /// What the store's answer to a create means.
    pub fn created(stored: Option<Post>) -> (res: AppResult<Post>)
        ensures
            stored matches Some(p) ==> res == Ok::<Post, crate::error::AppError>(p),
            stored is None ==> (res matches Err(crate::error::AppError::DatabaseError(m)) && m@
                == "Failed to create post"@),
    {
        let r = created_record(stored, "post");
        proof {
            reveal_strlit("Failed to create ");
            reveal_strlit("post");
            reveal_strlit("Failed to create post");
        }
        r
    }

    /// The statement that applies `data` to post `id`.
    pub fn update(id: &str, data: &UpdatePost) -> (res: String)
        ensures
            res@ == update_statement_text(POSTS_TABLE@, id@, post_assignments(*data)),
    {
        let mut updates: Vec<String> = Vec::new();
        push_assignment(&mut updates, "updated_at = time::now()".to_string());
        let ghost after_time = texts(updates@);
        if let Some(title) = &data.title {
            push_assignment(&mut updates, escaped_assignment("title", title.as_str()));
            let slug = slugify(title.as_str());
            push_assignment(&mut updates, quoted_assignment("slug", slug.as_str()));
        }
        let ghost after_title = texts(updates@);
        push_quoted_if(&mut updates, "excerpt", &data.excerpt, true);
        let ghost after_excerpt = texts(updates@);
        if let Some(content) = &data.content {
            push_assignment(&mut updates, escaped_assignment("content", content.as_str()));
            let minutes = Self::calculate_reading_time(content.as_str());
            push_assignment(&mut updates, int_assignment("reading_time", minutes as i64));
        }
        let ghost after_content = texts(updates@);
        push_bool_if(&mut updates, "published", data.published);
        assert(after_time == seq!["updated_at = time::now()"@]);
        assert(after_title == after_time + match data.title {
            Some(t) => seq![
                quoted_assignment_text("title"@, sql_escaped(t@)),
                quoted_assignment_text("slug"@, slug_of(t@)),
            ],
            None => Seq::<Seq<char>>::empty(),
        });
        assert(after_content == after_excerpt + match data.content {
            Some(c) => seq![
                quoted_assignment_text("content"@, sql_escaped(c@)),
                raw_assignment_text("reading_time"@, int_decimal(post_reading_time(c@))),
            ],
            None => Seq::<Seq<char>>::empty(),
        });
        assert(texts(updates@) =~= post_assignments(*data));
        update_statement(POSTS_TABLE, id, &updates)
    }

    /// What the store's answer to an update means.
    pub fn updated(rows: Vec<Post>) -> (res: AppResult<Post>)
        ensures
            rows@.len() > 0 ==> res == Ok::<Post, crate::error::AppError>(rows@[0]),
            rows@.len() == 0 ==> (res matches Err(crate::error::AppError::NotFound(m)) && m@
                == "Post not found"@),
    {
        updated_record(rows, "Post not found")
    }
}

} // verus!
