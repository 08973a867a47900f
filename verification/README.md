# portfolio

The verified core of a portfolio web site (projects, blog posts, experience,
skills, a contact form, and an admin area behind GitHub sign-in).

- `src/` is the library, written in Verus. It holds the decisions of the site:
  the records stored for new content, the SurrealQL update statements with
  their quoting, reading times, skill grouping, the contact e-mails and their
  HTML escaping, the GitHub profile summary, the admin guard and the steps of
  the GitHub OAuth callback. Each public function has a contract, and the
  library's laws (HTML escaping reversible and free of markup characters, quote
  doubling reversible under a quote-pair model, decimal text round trips, the
  sign-in rule, the grouping of skills, ...) are proof functions.
- `app/` is the web server around it: configuration, the SurrealDB store,
  actix-web routes and sessions, and the HTTP calls to GitHub and to Resend.
- `tests/` runs the library on concrete values.
