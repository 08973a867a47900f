//! The GitHub profile summary shown on the site.

use vstd::prelude::*;

use crate::error::AppError;
use crate::text::concat_str;

verus! {

/// How many repositories the summary lists at most.
pub const RECENT_REPO_LIMIT: usize = 5;

/// The profile summary.
#[derive(Debug, Clone, PartialEq, Eq)]
pub struct GitHubStats {
    pub public_repos: i32,
    pub followers: i32,
    pub following: i32,
    pub total_stars: i32,
    pub avatar_url: String,
    pub bio: Option<String>,
    pub recent_repos: Vec<RepoInfo>,
}

/// One repository in the summary.
#[derive(Debug, Clone, PartialEq, Eq)]
pub struct RepoInfo {
    pub name: String,
    pub description: Option<String>,
    pub stars: i32,
    pub forks: i32,
    pub language: Option<String>,
    pub url: String,
    pub updated_at: String,
}

/// A GitHub account as the users API reports it.
#[derive(Debug, Clone, PartialEq, Eq)]
pub struct GitHubUser {
    pub public_repos: i32,
    pub followers: i32,
    pub following: i32,
    pub avatar_url: String,
    pub bio: Option<String>,
}

/// A repository as the repos API reports it.
#[derive(Debug, Clone, PartialEq, Eq)]
pub struct GitHubRepo {
    pub name: String,
    pub description: Option<String>,
    pub stargazers_count: i32,
    pub forks_count: i32,
    pub language: Option<String>,
    pub html_url: String,
    pub updated_at: String,
    pub fork: bool,
}

/// Builds the profile summary from what GitHub reports.
pub struct GitHubService;

/// The stars of all repositories together.
pub open spec fn stars_total(repos: Seq<GitHubRepo>) -> int
    decreases repos.len(),
{
    if repos.len() == 0 {
        0
    } else {
        stars_total(repos.drop_last()) + repos.last().stargazers_count
    }
}

/// Adding up the stars one repository after another never leaves the range of `i32`.
pub open spec fn stars_fit(repos: Seq<GitHubRepo>) -> bool {
    forall|k: int|
        0 <= k <= repos.len() ==> i32::MIN <= #[trigger] stars_total(repos.take(k)) <= i32::MAX
}

/// How a repository is listed in the summary.
pub open spec fn repo_info_of(r: GitHubRepo) -> RepoInfo {
    RepoInfo {
        name: r.name,
        description: r.description,
        stars: r.stargazers_count,
        forks: r.forks_count,
        language: r.language,
        url: r.html_url,
        updated_at: r.updated_at,
    }
}

/// The listing of every repository that is not a fork, in the order given.
pub open spec fn own_repos(repos: Seq<GitHubRepo>) -> Seq<RepoInfo>
    decreases repos.len(),
{
    if repos.len() == 0 {
        Seq::empty()
    } else if repos.last().fork {
        own_repos(repos.drop_last())
    } else {
        own_repos(repos.drop_last()).push(repo_info_of(repos.last()))
    }
}

/// The first `n` items of `s`, or all of them when there are fewer.
pub open spec fn first_n<T>(s: Seq<T>, n: int) -> Seq<T> {
    if s.len() <= n {
        s
    } else {
        s.take(n)
    }
}

/// The repositories that the summary lists.
pub open spec fn recent_of(repos: Seq<GitHubRepo>) -> Seq<RepoInfo> {
    first_n(own_repos(repos), RECENT_REPO_LIMIT as int)
}

proof fn lemma_own_repos_from_sources(repos: Seq<GitHubRepo>)
    ensures
        forall|i: int|
            0 <= i < own_repos(repos).len() ==> exists|j: int|
                0 <= j < repos.len() && !repos[j].fork && #[trigger] own_repos(repos)[i]
                    == repo_info_of(repos[j]),
    decreases repos.len(),
{
    if repos.len() > 0 {
        let rest = repos.drop_last();
        lemma_own_repos_from_sources(rest);
        assert forall|i: int| 0 <= i < own_repos(repos).len() implies exists|j: int|
            0 <= j < repos.len() && !repos[j].fork && #[trigger] own_repos(repos)[i]
                == repo_info_of(repos[j]) by {
            if i < own_repos(rest).len() {
                assert(own_repos(repos)[i] == own_repos(rest)[i]);
                let j = choose|j: int|
                    0 <= j < rest.len() && !rest[j].fork && #[trigger] own_repos(rest)[i]
                        == repo_info_of(rest[j]);
                assert(repos[j] == rest[j]);
            } else {
                assert(own_repos(repos)[i] == repo_info_of(repos[repos.len() - 1]));
            }
        }
    }
}

/// Law: the summary lists at most [`RECENT_REPO_LIMIT`] repositories, and each
/// listed one is a repository that GitHub reported and that is not a fork.
pub proof fn lemma_recent_repos_are_own(repos: Seq<GitHubRepo>)
    ensures
        recent_of(repos).len() <= RECENT_REPO_LIMIT,
        forall|i: int|
            0 <= i < recent_of(repos).len() ==> exists|j: int|
                0 <= j < repos.len() && !repos[j].fork && #[trigger] recent_of(repos)[i]
                    == repo_info_of(repos[j]),
{
    lemma_own_repos_from_sources(repos);
    assert forall|i: int| 0 <= i < recent_of(repos).len() implies exists|j: int|
        0 <= j < repos.len() && !repos[j].fork && #[trigger] recent_of(repos)[i] == repo_info_of(
            repos[j],
        ) by {
        assert(recent_of(repos)[i] == own_repos(repos)[i]);
    }
}

/// The repositories GitHub reported that are not forks, in the order given.
pub open spec fn non_forks(repos: Seq<GitHubRepo>) -> Seq<GitHubRepo> {
    repos.filter(|r: GitHubRepo| !r.fork)
}

proof fn lemma_own_repos_lists_non_forks(repos: Seq<GitHubRepo>)
    ensures
        own_repos(repos).len() == non_forks(repos).len(),
        forall|i: int|
            0 <= i < own_repos(repos).len() ==> #[trigger] own_repos(repos)[i] == repo_info_of(
                non_forks(repos)[i],
            ),
    decreases repos.len(),
{
    reveal_with_fuel(Seq::<_>::filter, 1);
    if repos.len() > 0 {
        lemma_own_repos_lists_non_forks(repos.drop_last());
        assert(non_forks(repos) == if !repos.last().fork {
            non_forks(repos.drop_last()).push(repos.last())
        } else {
            non_forks(repos.drop_last())
        });
    }
}

/// Law: the summary lists exactly the first five repositories that are not
/// forks (all of them when there are fewer), in the order given, each with its
/// name, description, stars, forks, language, address and update time as
/// GitHub reported them, whatever its optional fields hold.
pub proof fn lemma_recent_repos_are_first_five_non_forks(repos: Seq<GitHubRepo>)
    ensures
        recent_of(repos).len() == if non_forks(repos).len() < 5 {
            non_forks(repos).len()
        } else {
            5
        },
        forall|i: int|
            0 <= i < recent_of(repos).len() ==> {
                let r = #[trigger] recent_of(repos)[i];
                let g = non_forks(repos)[i];
                &&& r.name == g.name
                &&& r.description == g.description
                &&& r.stars == g.stargazers_count
                &&& r.forks == g.forks_count
                &&& r.language == g.language
                &&& r.url == g.html_url
                &&& r.updated_at == g.updated_at
            },
{
    lemma_own_repos_lists_non_forks(repos);
    assert forall|i: int| 0 <= i < recent_of(repos).len() implies {
        let r = #[trigger] recent_of(repos)[i];
        let g = non_forks(repos)[i];
        &&& r.name == g.name
        &&& r.description == g.description
        &&& r.stars == g.stargazers_count
        &&& r.forks == g.forks_count
        &&& r.language == g.language
        &&& r.url == g.html_url
        &&& r.updated_at == g.updated_at
    } by {
        assert(recent_of(repos)[i] == own_repos(repos)[i]);
    }
}


/// Law: the star total of repositories listed one after another is the sum of
/// their totals, and a single repository counts its own stars, forks included.
pub proof fn lemma_stars_total_adds_up(a: Seq<GitHubRepo>, b: Seq<GitHubRepo>, r: GitHubRepo)
    ensures
        stars_total(a + b) == stars_total(a) + stars_total(b),
        stars_total(seq![r]) == r.stargazers_count,
        stars_total(Seq::<GitHubRepo>::empty()) == 0,
    decreases b.len(),
{
    assert(seq![r].drop_last() == Seq::<GitHubRepo>::empty());
    assert(seq![r].last() == r);
    assert(stars_total(Seq::<GitHubRepo>::empty()) == 0);
    if b.len() == 0 {
        assert(a + b == a);
    } else {
        lemma_stars_total_adds_up(a, b.drop_last(), r);
        assert((a + b).drop_last() == a + b.drop_last());
        assert((a + b).last() == b.last());
    }
}


impl GitHubService {
    /// The users API address of `username`.
    pub fn user_url(username: &str) -> (res: String)
        ensures
            res@ == "https://api.github.com/users/"@ + username@,
    {
        concat_str("https://api.github.com/users/", username)
    }

    /// The address that lists the ten most recently updated repositories of `username`.
    pub fn repos_url(username: &str) -> (res: String)
        ensures
            res@ == "https://api.github.com/users/"@ + username@ + "/repos?sort=updated&per_page=10"@,
    {
        let mut res = concat_str("https://api.github.com/users/", username);
        res.append("/repos?sort=updated&per_page=10");
        res
    }

    /// The error for a failed fetch of the account, with the transport's `detail`.
    pub fn user_fetch_error(detail: &str) -> (res: AppError)
        ensures
            res matches AppError::InternalError(m) && m@ == "Failed to fetch GitHub user: "@
                + detail@,
    {
        AppError::InternalError(concat_str("Failed to fetch GitHub user: ", detail))
    }

    /// The error for a failed fetch of the repositories, with the transport's `detail`.
    pub fn repos_fetch_error(detail: &str) -> (res: AppError)
        ensures
            res matches AppError::InternalError(m) && m@ == "Failed to fetch GitHub repos: "@
                + detail@,
    {
        AppError::InternalError(concat_str("Failed to fetch GitHub repos: ", detail))
    }

    /// The stars of all repositories together, or `None` when adding them up one
    /// after another overflows `i32`.
    pub fn total_stars(repos: &Vec<GitHubRepo>) -> (res: Option<i32>)
        ensures
            res is Some <==> stars_fit(repos@),
            res matches Some(t) ==> t == stars_total(repos@),
    {
        let mut total: i32 = 0;
        let mut i: usize = 0;
        assert(repos@.take(0) == Seq::<GitHubRepo>::empty());
        while i < repos.len()
            invariant
                i <= repos.len(),
                total == stars_total(repos@.take(i as int)),
                forall|k: int|
                    0 <= k <= i ==> i32::MIN <= #[trigger] stars_total(repos@.take(k)) <= i32::MAX,
            decreases repos.len() - i,
        {
            assert(repos@.take(i + 1).drop_last() == repos@.take(i as int));
            let next = total as i64 + repos[i].stargazers_count as i64;
            if next < i32::MIN as i64 || next > i32::MAX as i64 {
                assert(!(i32::MIN <= stars_total(repos@.take(i + 1)) <= i32::MAX));
                return None;
            }
            total = next as i32;
            i = i + 1;
        }
        assert(repos@.take(repos@.len() as int) == repos@);
        Some(total)
    }

    /// The repositories listed in the summary: those that are not forks, at most
    /// [`RECENT_REPO_LIMIT`] of them, in the order given.
    pub fn recent_repos(repos: Vec<GitHubRepo>) -> (res: Vec<RepoInfo>)
        ensures
            res@ == recent_of(repos@),
    {
        let ghost all = repos@;
        let mut res: Vec<RepoInfo> = Vec::new();
        let ghost mut n: int = 0;
        assert(all.take(0) == Seq::<GitHubRepo>::empty());
        for r in it: repos.into_iter()
            invariant
                it.seq() == all,
                n == it.index(),
                res@ == first_n(own_repos(all.take(n)), RECENT_REPO_LIMIT as int),
        {
            assert(all.take(n + 1).drop_last() == all.take(n));
            assert(all[n] == r);
            if !r.fork && res.len() < RECENT_REPO_LIMIT {
                res.push(
                    RepoInfo {
                        name: r.name,
                        description: r.description,
                        stars: r.stargazers_count,
                        forks: r.forks_count,
                        language: r.language,
                        url: r.html_url,
                        updated_at: r.updated_at,
                    },
                );
            }
            proof {
                n = n + 1;
            }
        }
        assert(all.take(all.len() as int) == all);
        res
    }

    /// The profile summary: the account's counts, avatar and bio, the stars of all
    /// repositories together, and the listed repositories.
    pub fn get_user_stats(user: GitHubUser, repos: Vec<GitHubRepo>) -> (res: GitHubStats)
        requires
            stars_fit(repos@),
        ensures
            res.public_repos == user.public_repos,
            res.followers == user.followers,
            res.following == user.following,
            res.total_stars == stars_total(repos@),
            res.avatar_url == user.avatar_url,
            res.bio == user.bio,
            res.recent_repos@ == recent_of(repos@),
    {
        let total_stars = match Self::total_stars(&repos) {
            Some(t) => t,
            None => 0,
        };
        let recent_repos = Self::recent_repos(repos);
        GitHubStats {
            public_repos: user.public_repos,
            followers: user.followers,
            following: user.following,
            total_stars,
            avatar_url: user.avatar_url,
            bio: user.bio,
            recent_repos,
        }
    }
}

} // verus!
