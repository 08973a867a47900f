use portfolio::error::AppError;
use portfolio::models::experience::{CreateExperience, Experience, UpdateExperience};
use portfolio::models::message::{CreateMessage, Message};
use portfolio::models::post::{CreatePost, Post, UpdatePost};
use portfolio::models::project::{CreateProject, Project, UpdateProject};
use portfolio::models::skill::{CreateSkill, Skill};
use portfolio::models::{count_from_rows, first_row, RecordId};

fn empty_experience_update() -> UpdateExperience {
    UpdateExperience {
        company: None,
        role: None,
        description: None,
        start_date: None,
        end_date: None,
        current: None,
        order_index: None,
    }
}

fn skill(name: &str, category: &str) -> Skill {
    Skill {
        id: Some(RecordId { table: "skills".to_string(), key: name.to_string() }),
        name: name.to_string(),
        category: category.to_string(),
        icon: None,
        proficiency: 3,
    }
}

fn project_slug(title: &str) -> String {
    Project::create(CreateProject {
        title: title.to_string(),
        description: String::new(),
        content: String::new(),
        category: String::new(),
        tech_stack: Vec::new(),
        github_url: None,
        live_url: None,
        image_url: None,
        featured: false,
        status: String::new(),
    })
    .slug
}

#[test]
fn project_slugs_follow_the_slug_crate_examples() {
    assert_eq!(project_slug("My Test String!!!1!1"), "my-test-string-1-1");
    assert_eq!(project_slug("test\nit   now!"), "test-it-now");
    assert_eq!(project_slug("  --test_-_cool"), "test-cool");
    assert_eq!(project_slug("You & Me"), "you-me");
    assert_eq!(project_slug("user@example.com"), "user-example-com");
    assert_eq!(project_slug(""), "");
}

#[test]
fn experience_update_without_changes_is_none() {
    assert_eq!(Experience::update("abc", &empty_experience_update()), None);
}

#[test]
fn experience_update_escapes_quotes() {
    let mut d = empty_experience_update();
    d.company = Some("O'Reilly".to_string());
    assert_eq!(
        Experience::update("abc", &d).unwrap(),
        "UPDATE experiences:abc SET company = 'O''Reilly' RETURN AFTER"
    );
}

#[test]
fn experience_update_with_every_field() {
    let d = UpdateExperience {
        company: Some("Acme".to_string()),
        role: Some("Dev's lead".to_string()),
        description: Some("Built 'things'".to_string()),
        start_date: Some("2020-01".to_string()),
        end_date: Some("2021-02".to_string()),
        current: Some(false),
        order_index: Some(-2),
    };
    assert_eq!(
        Experience::update("e1", &d).unwrap(),
        "UPDATE experiences:e1 SET company = 'Acme', role = 'Dev''s lead', description = 'Built ''things''', start_date = '2020-01', end_date = '2021-02', current = false, order_index = -2 RETURN AFTER"
    );
}

#[test]
fn experience_create_and_results() {
    let e = Experience::create(CreateExperience {
        company: "Acme".to_string(),
        role: "Dev".to_string(),
        description: "Stuff".to_string(),
        start_date: "2020".to_string(),
        end_date: None,
        current: true,
        order_index: 1,
    });
    assert_eq!(e.id, None);
    assert_eq!(e.company, "Acme");
    assert!(e.current);
    assert_eq!(Experience::created(Some(e.clone())), Ok(e.clone()));
    assert_eq!(
        Experience::created(None),
        Err(AppError::DatabaseError("Failed to create experience".to_string()))
    );
    assert_eq!(Experience::updated(vec![e.clone()]), Ok(e));
    assert_eq!(
        Experience::updated(Vec::new()),
        Err(AppError::NotFound("Experience not found".to_string()))
    );
}

#[test]
fn post_create_sets_slug_and_reading_time() {
    let p = Post::create(CreatePost {
        title: "Hello World!".to_string(),
        excerpt: "ex".to_string(),
        content: vec!["w"; 450].join(" "),
        tags: vec!["rust".to_string()],
        published: true,
    });
    assert_eq!(p.slug, "hello-world");
    assert_eq!(p.reading_time, 3);
    assert_eq!(p.id, None);
    assert_eq!(p.created_at, None);
    assert_eq!(p.updated_at, None);
    assert_eq!(p.tags, vec!["rust".to_string()]);
}

#[test]
fn post_update_always_sets_updated_at() {
    let d = UpdatePost { title: None, excerpt: None, content: None, tags: None, published: None };
    assert_eq!(Post::update("p1", &d), "UPDATE posts:p1 SET updated_at = time::now() RETURN AFTER");
}

#[test]
fn post_update_with_title_and_content() {
    let d = UpdatePost {
        title: Some("Rust's Year".to_string()),
        excerpt: Some("It's".to_string()),
        content: Some("a b c".to_string()),
        tags: Some(vec!["ignored".to_string()]),
        published: Some(true),
    };
    assert_eq!(
        Post::update("p1", &d),
        "UPDATE posts:p1 SET updated_at = time::now(), title = 'Rust''s Year', slug = 'rust-s-year', excerpt = 'It''s', content = 'a b c', reading_time = 1, published = true RETURN AFTER"
    );
}

#[test]
fn post_create_and_update_agree_on_slug() {
    let title = "Ünïcode & Friends";
    let created = Post::create(CreatePost {
        title: title.to_string(),
        excerpt: String::new(),
        content: String::new(),
        tags: Vec::new(),
        published: false,
    });
    let q = Post::update(
        "x",
        &UpdatePost { title: Some(title.to_string()), excerpt: None, content: None, tags: None, published: None },
    );
    assert!(q.contains(&format!("slug = '{}'", created.slug)));
}

#[test]
fn post_content_html_renders_markdown() {
    let mut p = Post::create(CreatePost {
        title: "t".to_string(),
        excerpt: String::new(),
        content: "# Hi\n\nSome *text*.".to_string(),
        tags: Vec::new(),
        published: false,
    });
    assert_eq!(p.content_html(), "<h1>Hi</h1>\n<p>Some <em>text</em>.</p>\n");
    p.content = String::new();
    assert_eq!(p.content_html(), "");
}

#[test]
fn post_results() {
    assert_eq!(Post::created(None), Err(AppError::DatabaseError("Failed to create post".to_string())));
    assert_eq!(Post::updated(Vec::new()), Err(AppError::NotFound("Post not found".to_string())));
}

#[test]
fn project_create_and_update() {
    let p = Project::create(CreateProject {
        title: "My Project".to_string(),
        description: "d".to_string(),
        content: "c".to_string(),
        category: "web".to_string(),
        tech_stack: vec!["rust".to_string()],
        github_url: Some("https://github.com/x".to_string()),
        live_url: None,
        image_url: None,
        featured: true,
        status: "completed".to_string(),
    });
    assert_eq!(p.slug, "my-project");
    assert_eq!(p.github_url.as_deref(), Some("https://github.com/x"));
    let d = UpdateProject {
        title: Some("New 'Name'".to_string()),
        description: Some("It's".to_string()),
        content: None,
        category: Some("o'cat".to_string()),
        tech_stack: Some(vec!["ignored".to_string()]),
        github_url: Some("ignored".to_string()),
        live_url: None,
        image_url: None,
        featured: Some(false),
        status: Some("wip".to_string()),
    };
    assert_eq!(
        Project::update("pr", &d),
        "UPDATE projects:pr SET updated_at = time::now(), title = 'New ''Name''', slug = 'new-name', description = 'It''s', category = 'o'cat', featured = false, status = 'wip' RETURN AFTER"
    );
    assert_eq!(Project::created(None), Err(AppError::DatabaseError("Failed to create project".to_string())));
    assert_eq!(Project::updated(Vec::new()), Err(AppError::NotFound("Project not found".to_string())));
}

#[test]
fn message_create_and_mark_read() {
    let m = Message::create(CreateMessage {
        name: "Ann".to_string(),
        email: "ann@example.com".to_string(),
        subject: "Hi".to_string(),
        message: "Hello".to_string(),
    });
    assert!(!m.read);
    assert_eq!(m.created_at, None);
    assert_eq!(Message::mark_read("m1"), "UPDATE messages:m1 SET read = true RETURN AFTER");
    assert_eq!(Message::created(None), Err(AppError::DatabaseError("Failed to create message".to_string())));
    assert_eq!(Message::updated(Vec::new()), Err(AppError::NotFound("Message not found".to_string())));
}

#[test]
fn skill_create_and_group() {
    let s = Skill::create(CreateSkill {
        name: "Rust".to_string(),
        category: "Languages".to_string(),
        icon: Some("rust.svg".to_string()),
        proficiency: 5,
    });
    assert_eq!(s.id, None);
    assert_eq!(s.proficiency, 5);
    assert_eq!(Skill::created(None), Err(AppError::DatabaseError("Failed to create skill".to_string())));

    let all = vec![
        skill("rust", "lang"),
        skill("docker", "tools"),
        skill("go", "lang"),
        skill("git", "tools"),
        skill("sql", "db"),
    ];
    let groups = Skill::grouped(all.clone());
    assert_eq!(groups.len(), 3);
    assert_eq!(groups[0].category, "lang");
    assert_eq!(groups[0].skills, vec![all[0].clone(), all[2].clone()]);
    assert_eq!(groups[1].category, "tools");
    assert_eq!(groups[1].skills, vec![all[1].clone(), all[3].clone()]);
    assert_eq!(groups[2].category, "db");
    assert_eq!(groups[2].skills, vec![all[4].clone()]);
    let total: usize = groups.iter().map(|g| g.skills.len()).sum();
    assert_eq!(total, all.len());
    assert!(Skill::grouped(Vec::new()).is_empty());
}

#[test]
fn rows_and_counts() {
    assert_eq!(first_row::<i32>(Vec::new()), None);
    assert_eq!(first_row(vec![3, 4]), Some(3));
    assert_eq!(count_from_rows(Vec::new()), 0);
    assert_eq!(count_from_rows(vec![12, 99]), 12);
}
