use portfolio::error::AppError;
use portfolio::services::email::{EmailDraft, EmailService, AUTO_REPLY_SUBJECT};
use portfolio::services::github::{GitHubRepo, GitHubService, GitHubUser};

fn escape(s: &str) -> String {
    s.replace('&', "&amp;")
        .replace('<', "&lt;")
        .replace('>', "&gt;")
        .replace('"', "&quot;")
        .replace('\'', "&#39;")
}

fn expected_notification(sender_name: &str, sender_email: &str, subject: &str, message: &str) -> String {
    format!(
        r#"
            <!DOCTYPE html>
            <html>
            <head>
                <style>
                    body {{ font-family: -apple-system, BlinkMacSystemFont, 'Segoe UI', Roboto, sans-serif; line-height: 1.6; color: #333; }}
                    .container {{ max-width: 600px; margin: 0 auto; padding: 20px; }}
                    .header {{ background: #0A0A0A; color: white; padding: 20px; border-radius: 8px 8px 0 0; }}
                    .content {{ background: #f9fafb; padding: 20px; border: 1px solid #e5e7eb; border-top: none; border-radius: 0 0 8px 8px; }}
                    .field {{ margin-bottom: 16px; }}
                    .label {{ font-size: 12px; color: #6b7280; text-transform: uppercase; letter-spacing: 0.05em; margin-bottom: 4px; }}
                    .value {{ font-size: 16px; }}
                    .message-box {{ background: white; padding: 16px; border-radius: 8px; border: 1px solid #e5e7eb; white-space: pre-wrap; }}
                    .footer {{ margin-top: 20px; font-size: 12px; color: #6b7280; text-align: center; }}
                </style>
            </head>
            <body>
                <div class="container">
                    <div class="header">
                        <h2 style="margin: 0;">New Contact Form Submission</h2>
                        <p style="margin: 8px 0 0 0; opacity: 0.8;">kadynpearce.dev</p>
                    </div>
                    <div class="content">
                        <div class="field">
                            <div class="label">From</div>
                            <div class="value">{sender_name} &lt;{sender_email}&gt;</div>
                        </div>
                        <div class="field">
                            <div class="label">Subject</div>
                            <div class="value">{subject}</div>
                        </div>
                        <div class="field">
                            <div class="label">Message</div>
                            <div class="message-box">{message}</div>
                        </div>
                    </div>
                    <div class="footer">
                        Reply directly to this email to respond to {sender_name}
                    </div>
                </div>
            </body>
            </html>
            "#,
        sender_name = escape(sender_name),
        sender_email = escape(sender_email),
        subject = escape(subject),
        message = escape(message),
    )
}

fn expected_auto_reply(recipient_name: &str) -> String {
    format!(
        r#"
            <!DOCTYPE html>
            <html>
            <head>
                <style>
                    body {{ font-family: -apple-system, BlinkMacSystemFont, 'Segoe UI', Roboto, sans-serif; line-height: 1.6; color: #333; }}
                    .container {{ max-width: 600px; margin: 0 auto; padding: 20px; }}
                    .header {{ background: #0A0A0A; color: white; padding: 20px; border-radius: 8px 8px 0 0; }}
                    .content {{ background: #f9fafb; padding: 20px; border: 1px solid #e5e7eb; border-top: none; border-radius: 0 0 8px 8px; }}
                    .footer {{ margin-top: 20px; font-size: 12px; color: #6b7280; text-align: center; }}
                    a {{ color: #2563eb; }}
                </style>
            </head>
            <body>
                <div class="container">
                    <div class="header">
                        <h2 style="margin: 0;">Thanks for reaching out!</h2>
                    </div>
                    <div class="content">
                        <p>Hi {recipient_name},</p>
                        <p>Thanks for getting in touch! I've received your message and will get back to you as soon as possible, usually within 24-48 hours.</p>
                        <p>In the meantime, feel free to check out my latest work on <a href="https://kadynpearce.dev/projects">my portfolio</a> or connect with me on <a href="https://github.com/kadynjaipearce">GitHub</a>.</p>
                        <p>Best,<br>Kadyn</p>
                    </div>
                    <div class="footer">
                        This is an automated response from kadynpearce.dev
                    </div>
                </div>
            </body>
            </html>
            "#,
        recipient_name = escape(recipient_name),
    )
}

#[test]
fn contact_notification_fills_the_template() {
    let d = EmailService::send_contact_notification(
        "owner@example.com",
        "Eve <script>",
        "eve@example.com",
        "Q&A's",
        "Hi \"there\"\nbye",
    );
    assert_eq!(d.to, "owner@example.com");
    assert_eq!(d.subject, "[Contact] Q&A's");
    assert_eq!(d.reply_to.as_deref(), Some("eve@example.com"));
    assert_eq!(d.html_body, expected_notification("Eve <script>", "eve@example.com", "Q&A's", "Hi \"there\"\nbye"));
    assert!(d.html_body.contains("Eve &lt;script&gt; &lt;eve@example.com&gt;"));
}

#[test]
fn auto_reply_fills_the_template() {
    let d = EmailService::send_contact_auto_reply("O'Neil", "oneil@example.com");
    assert_eq!(d.to, "oneil@example.com");
    assert_eq!(d.subject, AUTO_REPLY_SUBJECT);
    assert_eq!(d.subject, "Thanks for reaching out!");
    assert_eq!(d.reply_to, None);
    assert_eq!(d.html_body, expected_auto_reply("O'Neil"));
    assert!(d.html_body.contains("<p>Hi O&#39;Neil,</p>"));
}

#[test]
fn send_email_needs_an_api_key() {
    let draft = EmailDraft {
        to: "a@b.c".to_string(),
        subject: "s".to_string(),
        html_body: "<p>x</p>".to_string(),
        reply_to: None,
    };
    assert_eq!(
        EmailService::send_email("", "site@x.dev", draft.clone()),
        Err(AppError::InternalError("Email service not configured".to_string()))
    );
    let req = EmailService::send_email("key", "site@x.dev", draft).unwrap();
    assert_eq!(req.from, "site@x.dev");
    assert_eq!(req.to, vec!["a@b.c".to_string()]);
    assert_eq!(req.subject, "s");
    assert_eq!(req.html, "<p>x</p>");
    assert_eq!(req.reply_to, None);
}

#[test]
fn email_replies_and_errors() {
    assert_eq!(EmailService::authorization("re_123"), "Bearer re_123");
    assert_eq!(EmailService::accepted(Ok("id-1".to_string())), Ok("id-1".to_string()));
    assert_eq!(
        EmailService::accepted(Err("missing field `id`".to_string())),
        Err(AppError::InternalError("Failed to parse response: missing field `id`".to_string()))
    );
    assert_eq!(
        EmailService::rejected(Some("bad sender".to_string())),
        AppError::InternalError("Email send failed: bad sender".to_string())
    );
    assert_eq!(
        EmailService::rejected(None),
        AppError::InternalError("Email send failed: Unknown error".to_string())
    );
    assert_eq!(
        EmailService::transport_error("timeout"),
        AppError::InternalError("Failed to send email: timeout".to_string())
    );
}

fn repo(name: &str, stars: i32, fork: bool) -> GitHubRepo {
    GitHubRepo {
        name: name.to_string(),
        description: Some(format!("{} repo", name)),
        stargazers_count: stars,
        forks_count: 1,
        language: Some("Rust".to_string()),
        html_url: format!("https://github.com/u/{}", name),
        updated_at: "2024-01-01T00:00:00Z".to_string(),
        fork,
    }
}

#[test]
fn github_urls() {
    assert_eq!(GitHubService::user_url("octo"), "https://api.github.com/users/octo");
    assert_eq!(
        GitHubService::repos_url("octo"),
        "https://api.github.com/users/octo/repos?sort=updated&per_page=10"
    );
    assert_eq!(
        GitHubService::user_fetch_error("boom"),
        AppError::InternalError("Failed to fetch GitHub user: boom".to_string())
    );
    assert_eq!(
        GitHubService::repos_fetch_error("boom"),
        AppError::InternalError("Failed to fetch GitHub repos: boom".to_string())
    );
}

#[test]
fn github_stats_sum_stars_and_list_own_repos() {
    let repos = vec![
        repo("a", 3, false),
        repo("b", 10, true),
        repo("c", 0, false),
        repo("d", 1, false),
        repo("e", 2, false),
        repo("f", 5, false),
        repo("g", 7, false),
    ];
    assert_eq!(GitHubService::total_stars(&repos), Some(28));
    let user = GitHubUser {
        public_repos: 7,
        followers: 2,
        following: 1,
        avatar_url: "https://avatars/x".to_string(),
        bio: None,
    };
    let stats = GitHubService::get_user_stats(user, repos);
    assert_eq!(stats.total_stars, 28);
    assert_eq!(stats.public_repos, 7);
    assert_eq!(stats.followers, 2);
    assert_eq!(stats.following, 1);
    assert_eq!(stats.bio, None);
    let names: Vec<&str> = stats.recent_repos.iter().map(|r| r.name.as_str()).collect();
    assert_eq!(names, vec!["a", "c", "d", "e", "f"]);
    assert_eq!(stats.recent_repos[0].stars, 3);
    assert_eq!(stats.recent_repos[0].url, "https://github.com/u/a");
    assert_eq!(stats.recent_repos[0].description.as_deref(), Some("a repo"));
}

#[test]
fn github_star_overflow_is_detected() {
    let repos = vec![repo("a", i32::MAX, false), repo("b", 1, false), repo("c", -5, false)];
    assert_eq!(GitHubService::total_stars(&repos), None);
    assert_eq!(GitHubService::total_stars(&Vec::new()), Some(0));
    assert_eq!(GitHubService::recent_repos(vec![repo("x", 1, true)]), Vec::new());
}
