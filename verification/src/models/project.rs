//! Portfolio projects.

use vstd::prelude::*;

use crate::db::surreal::{
    bool_text_of, escaped_assignment, push_assignment, push_bool_if, push_quoted_if,
    quoted_assignment, quoted_assignment_text, quoted_if, raw_if, texts, update_statement,
    update_statement_text,
};
use crate::error::AppResult;
use crate::models::{created_record, slug_of, slugify, updated_record, RecordId};
use crate::text::sql_escaped;

verus! {

broadcast use vstd::string::group_string_axioms;

/// All projects, newest first.
pub const ALL_PROJECTS: &'static str = "SELECT * FROM projects ORDER BY created_at DESC";

/// The three newest featured projects.
pub const FEATURED_PROJECTS: &'static str = "SELECT * FROM projects WHERE featured = true ORDER BY created_at DESC LIMIT 3";

/// The projects of the category bound to `$category`, newest first.
pub const PROJECTS_BY_CATEGORY: &'static str = "SELECT * FROM projects WHERE category = $category ORDER BY created_at DESC";

/// The project whose slug is bound to `$slug`.
pub const PROJECT_BY_SLUG: &'static str = "SELECT * FROM projects WHERE slug = $slug LIMIT 1";

/// The number of projects.
pub const COUNT_PROJECTS: &'static str = "SELECT count() as count FROM projects GROUP ALL";

/// The table that holds the projects.
pub const PROJECTS_TABLE: &'static str = "projects";

/// A portfolio project.
#[derive(Debug, Clone, PartialEq, Eq)]
pub struct Project {
    pub id: Option<RecordId>,
    pub title: String,
    pub slug: String,
    pub description: String,
    pub content: String,
    pub category: String,
    pub tech_stack: Vec<String>,
    pub github_url: Option<String>,
    pub live_url: Option<String>,
    pub image_url: Option<String>,
    pub featured: bool,
    pub status: String,
    pub created_at: Option<String>,
    pub updated_at: Option<String>,
}

/// The fields of a new project.
#[derive(Debug, Clone, PartialEq, Eq)]
pub struct CreateProject {
    pub title: String,
    pub description: String,
    pub content: String,
    pub category: String,
    pub tech_stack: Vec<String>,
    pub github_url: Option<String>,
    pub live_url: Option<String>,
    pub image_url: Option<String>,
    pub featured: bool,
    pub status: String,
}

/// The fields to change in a project; `None` leaves a field as it is.
#[derive(Debug, Clone, PartialEq, Eq)]
pub struct UpdateProject {
    pub title: Option<String>,
    pub description: Option<String>,
    pub content: Option<String>,
    pub category: Option<String>,
    pub tech_stack: Option<Vec<String>>,
    pub github_url: Option<String>,
    pub live_url: Option<String>,
    pub image_url: Option<String>,
    pub featured: Option<bool>,
    pub status: Option<String>,
}

/// The assignments that an update sets: always `updated_at`; for a new title the
/// title with its quotes doubled and the slug made from it; the description and
/// content with their quotes doubled; the category as given; `featured`; and the
/// status as given. The tech stack and the links are not changed by an update.
pub open spec fn project_assignments(d: UpdateProject) -> Seq<Seq<char>> {
    seq!["updated_at = time::now()"@] + match d.title {
        Some(t) => seq![
            quoted_assignment_text("title"@, sql_escaped(t@)),
            quoted_assignment_text("slug"@, slug_of(t@)),
        ],
        None => Seq::empty(),
    } + quoted_if("description"@, d.description, true) + quoted_if("content"@, d.content, true)
        + quoted_if("category"@, d.category, false) + raw_if(
        "featured"@,
        bool_text_of(d.featured),
    ) + quoted_if("status"@, d.status, false)
}

/// Law: every update stamps `updated_at` first, and an update that changes the
/// title sets the slug that creating a project with that title stores.
pub proof fn lemma_update_keeps_slug_with_title(d: UpdateProject)
    ensures
        project_assignments(d)[0] == "updated_at = time::now()"@,
        d.title matches Some(t) ==> project_assignments(d)[2] == quoted_assignment_text(
            "slug"@,
            slug_of(t@),
        ),
{
}

/// The number of fields an update of a project is given (the tech stack and
/// the links aside, which an update never writes).
pub open spec fn project_fields_given(d: UpdateProject) -> int {
    (if d.title is Some { 2int } else { 0int }) + (if d.description is Some { 1int } else { 0int }) + (
    if d.content is Some {
        1int
    } else {
        0int
    }) + (if d.category is Some { 1int } else { 0int }) + (if d.featured is Some { 1int } else { 0int })
        + (if d.status is Some { 1int } else { 0int })
}

/// Law: a project update stamps the time and writes every field it is given,
/// with the given value: the title (quotes doubled) together with its slug, the
/// description and content (quotes doubled), the category and status as given,
/// and `featured = true` or `featured = false` as given; and it writes nothing else.
pub proof fn lemma_project_update_writes_given_fields(d: UpdateProject)
    ensures
        project_assignments(d).contains("updated_at = time::now()"@),
        d.title matches Some(t) ==> project_assignments(d).contains(
            "title = '"@ + sql_escaped(t@) + "'"@,
        ) && project_assignments(d).contains("slug = '"@ + slug_of(t@) + "'"@),
        d.description matches Some(x) ==> project_assignments(d).contains(
            "description = '"@ + sql_escaped(x@) + "'"@,
        ),
        d.content matches Some(c) ==> project_assignments(d).contains(
            "content = '"@ + sql_escaped(c@) + "'"@,
        ),
        d.category matches Some(c) ==> project_assignments(d).contains("category = '"@ + c@ + "'"@),
        d.featured == Some(true) ==> project_assignments(d).contains("featured = true"@),
        d.featured == Some(false) ==> project_assignments(d).contains("featured = false"@),
        d.status matches Some(x) ==> project_assignments(d).contains("status = '"@ + x@ + "'"@),
        project_assignments(d).len() == 1 + project_fields_given(d),
{
    broadcast use vstd::seq_lib::lemma_seq_concat_contains_all_elements;
    broadcast use vstd::seq_lib::lemma_seq_contains_after_push;

    reveal_strlit(" = '");
    reveal_strlit(" = ");
    reveal_strlit("title");
    reveal_strlit("title = '");
    reveal_strlit("slug");
    reveal_strlit("slug = '");
    reveal_strlit("description");
    reveal_strlit("description = '");
    reveal_strlit("content");
    reveal_strlit("content = '");
    reveal_strlit("category");
    reveal_strlit("category = '");
    reveal_strlit("status");
    reveal_strlit("status = '");
    reveal_strlit("featured");
    reveal_strlit("true");
    reveal_strlit("false");
    reveal_strlit("featured = true");
    reveal_strlit("featured = false");
    assert("title"@ + " = '"@ == "title = '"@);
    assert("slug"@ + " = '"@ == "slug = '"@);
    assert("description"@ + " = '"@ == "description = '"@);
    assert("content"@ + " = '"@ == "content = '"@);
    assert("category"@ + " = '"@ == "category = '"@);
    assert("status"@ + " = '"@ == "status = '"@);
    assert("featured"@ + " = "@ + "true"@ == "featured = true"@);
    assert("featured"@ + " = "@ + "false"@ == "featured = false"@);
    assert(seq!["updated_at = time::now()"@].contains("updated_at = time::now()"@));
}

impl Project {
    /// The project to store for `data`: its slug made from the title, not yet
    /// given an id or timestamps.
    pub fn create(data: CreateProject) -> (res: Project)
        ensures
            res.id is None,
            res.title == data.title,
            res.slug@ == slug_of(data.title@),
            res.description == data.description,
            res.content == data.content,
            res.category == data.category,
            res.tech_stack == data.tech_stack,
            res.github_url == data.github_url,
            res.live_url == data.live_url,
            res.image_url == data.image_url,
            res.featured == data.featured,
            res.status == data.status,
            res.created_at is None,
            res.updated_at is None,
    {
        let slug = slugify(data.title.as_str());
        Project {
            id: None,
            title: data.title,
            slug,
            description: data.description,
            content: data.content,
            category: data.category,
            tech_stack: data.tech_stack,
            github_url: data.github_url,
            live_url: data.live_url,
            image_url: data.image_url,
            featured: data.featured,
            status: data.status,
            created_at: None,
            updated_at: None,
        }
    }

    /// What the store's answer to a create means.
    pub fn created(stored: Option<Project>) -> (res: AppResult<Project>)
        ensures
            stored matches Some(p) ==> res == Ok::<Project, crate::error::AppError>(p),
            stored is None ==> (res matches Err(crate::error::AppError::DatabaseError(m)) && m@
                == "Failed to create project"@),
    {
        let r = created_record(stored, "project");
        proof {
            reveal_strlit("Failed to create ");
            reveal_strlit("project");
            reveal_strlit("Failed to create project");
        }
        r
    }

    /// The statement that applies `data` to project `id`.
    pub fn update(id: &str, data: &UpdateProject) -> (res: String)
        ensures
            res@ == update_statement_text(PROJECTS_TABLE@, id@, project_assignments(*data)),
    {
        let mut updates: Vec<String> = Vec::new();
        push_assignment(&mut updates, "updated_at = time::now()".to_string());
        let ghost after_time = texts(updates@);
        if let Some(title) = &data.title {
            push_assignment(&mut updates, escaped_assignment("title", title.as_str()));
            let slug = slugify(title.as_str());
            push_assignment(&mut updates, quoted_assignment("slug", slug.as_str()));
        }
        let ghost after_title = texts(updates@);
        push_quoted_if(&mut updates, "description", &data.description, true);
        push_quoted_if(&mut updates, "content", &data.content, true);
        push_quoted_if(&mut updates, "category", &data.category, false);
        push_bool_if(&mut updates, "featured", data.featured);
        push_quoted_if(&mut updates, "status", &data.status, false);
        assert(after_time == seq!["updated_at = time::now()"@]);
        assert(after_title == after_time + match data.title {
            Some(t) => seq![
                quoted_assignment_text("title"@, sql_escaped(t@)),
                quoted_assignment_text("slug"@, slug_of(t@)),
            ],
            None => Seq::<Seq<char>>::empty(),
        });
        assert(texts(updates@) =~= project_assignments(*data));
        update_statement(PROJECTS_TABLE, id, &updates)
    }

    /// What the store's answer to an update means.
    pub fn updated(rows: Vec<Project>) -> (res: AppResult<Project>)
        ensures
            rows@.len() > 0 ==> res == Ok::<Project, crate::error::AppError>(rows@[0]),
            rows@.len() == 0 ==> (res matches Err(crate::error::AppError::NotFound(m)) && m@
                == "Project not found"@),
    {
        updated_record(rows, "Project not found")
    }
}

} // verus!
