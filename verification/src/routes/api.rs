//! The JSON API's computations.

use vstd::prelude::*;

verus! {

/// The years of experience that the statistics report.
pub const YEARS_EXPERIENCE: i32 = 5;

/// The site statistics served at `/api/stats`.
#[derive(Debug, Clone, PartialEq, Eq)]
pub struct Stats {
    pub projects: i64,
    pub posts: i64,
    pub years_experience: i32,
}

impl Stats {
    /// The statistics from the number of projects and of published posts; a count
    /// that could not be read (`None`) is reported as 0.
    pub fn from_counts(projects: Option<i64>, published_posts: Option<i64>) -> (res: Stats)
        ensures
            res.projects == (match projects {
                Some(n) => n,
                None => 0,
            }),
            res.posts == (match published_posts {
                Some(n) => n,
                None => 0,
            }),
            res.years_experience == YEARS_EXPERIENCE,
    {
        Stats {
            projects: match projects {
                Some(n) => n,
                None => 0,
            },
            posts: match published_posts {
                Some(n) => n,
                None => 0,
            },
            years_experience: YEARS_EXPERIENCE,
        }
    }
}

} // verus!
