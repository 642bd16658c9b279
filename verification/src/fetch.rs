//! The decisions taken while the dashboards are fetched: which issue is the
//! dashboard, how repositories are named, which pull requests are Renovate's
//! and what their builds say. The requests themselves are sent by the
//! program; the walk over paged listings is in `walk`.
use crate::client::BitbucketClient;
use crate::markdown::markdown_events;
use crate::parser::{
    Dashboard, DashboardError, Update, UpdateView, dashboard_of, has_malformed_comment,
    parse_dashboard,
};
use crate::report::RepoDashboard;
use crate::text::{decimal, has_prefix, push_decimal, starts_with, str_eq, string_of};
use vstd::prelude::*;
use vstd::string::*;

verus! {

// ---------------------------------------------------------------------------
// Dashboard issues
// ---------------------------------------------------------------------------

/// The title of the issue that Renovate keeps its dashboard in.
pub open spec fn dashboard_title() -> Seq<char> {
    "Dependency Dashboard"@
}

/// What is read of an issue; `None` where the platform gave no value.
#[derive(Debug, Clone)]
pub struct IssueSummary {
    pub title: Option<String>,
    pub body: Option<String>,
    pub html_url: Option<String>,
}

/// The value of an optional string, or the empty string.
pub open spec fn or_empty(s: Option<String>) -> Seq<char> {
    match s {
        Some(t) => t@,
        None => seq![],
    }
}

/// The issue is a dashboard: its title is exactly `Dependency Dashboard`.
pub open spec fn is_dashboard_issue(i: IssueSummary) -> bool {
    i.title matches Some(t) && t@ == dashboard_title()
}

/// The index of the first dashboard issue, if any.
pub open spec fn first_dashboard_issue(issues: Seq<IssueSummary>) -> Option<int> {
    if exists|i: int| 0 <= i < issues.len() && is_dashboard_issue(#[trigger] issues[i]) {
        Some(
            choose|i: int|
                0 <= i < issues.len() && is_dashboard_issue(#[trigger] issues[i]) && forall|k: int|
                    0 <= k < i ==> !is_dashboard_issue(#[trigger] issues[k]),
        )
    } else {
        None
    }
}

/// The value of an optional string, or the empty string.
fn string_or_empty(s: &Option<String>) -> (r: String)
    ensures
        r@ == or_empty(*s),
{
    match s {
        Some(t) => t.clone(),
        None => String::new(),
    }
}

/// The dashboard of a repository, from its open issues: the first issue
/// titled `Dependency Dashboard` is read, and its URL returned with the
/// dashboard; `None` where there is no such issue.
pub fn find_dashboard_issue(issues: &Vec<IssueSummary>) -> (r: Result<
    Option<(Dashboard, String)>,
    DashboardError,
>)
    ensures
        match first_dashboard_issue(issues@) {
            None => r matches Ok(None),
            Some(i) => {
                let body = or_empty(issues@[i].body);
                match r {
                    Ok(Some((d, url))) => !has_malformed_comment(markdown_events(body)) && d@
                        == dashboard_of(markdown_events(body)) && url@ == or_empty(
                        issues@[i].html_url,
                    ),
                    Err(_) => has_malformed_comment(markdown_events(body)),
                    Ok(None) => false,
                }
            },
        },
{
    let n = issues.len();
    let mut i: usize = 0;
    while i < n
        invariant
            n == issues@.len(),
            i <= n,
            forall|k: int| 0 <= k < i ==> !is_dashboard_issue(#[trigger] issues@[k]),
        decreases n - i,
    {
        let issue = &issues[i];
        let is_dashboard = match &issue.title {
            Some(t) => str_eq(t.as_str(), "Dependency Dashboard"),
            None => false,
        };
        if is_dashboard {
            assert(is_dashboard_issue(issues@[i as int]));
            let ghost w = choose|j: int|
                0 <= j < issues@.len() && is_dashboard_issue(#[trigger] issues@[j]) && forall|
                    k: int,
                | 0 <= k < j ==> !is_dashboard_issue(#[trigger] issues@[k]);
            assert(w == i) by {
                if w < i {
                    assert(!is_dashboard_issue(issues@[w]));
                } else if w > i {
                    assert(!is_dashboard_issue(issues@[i as int]));
                }
            }
            let body = string_or_empty(&issue.body);
            let url = string_or_empty(&issue.html_url);
            return match parse_dashboard(body.as_str()) {
                Ok(d) => Ok(Some((d, url))),
                Err(e) => Err(e),
            };
        }
        i = i + 1;
    }
    Ok(None)
}

// ---------------------------------------------------------------------------
// Collecting
// ---------------------------------------------------------------------------

/// What looking for a repository's dashboard gave.
#[derive(Debug)]
pub enum Lookup {
    /// A dashboard, with its URL.
    Found(Dashboard, String),
    /// The repository has no dashboard.
    Missing,
    /// The lookup failed; the program warns and goes on.
    Failed,
}

/// Collects one repository's lookup: a found dashboard is appended with the
/// repository's full and short names; a missing one leaves the list as it
/// is; so does a failed one, which is to be warned about (`true`).
pub fn collect_dashboard(
    dashboards: &mut Vec<RepoDashboard>,
    full_name: String,
    repo_name: String,
    lookup: Lookup,
) -> (warn: bool)
    ensures
        match lookup {
            Lookup::Found(d, url) => final(dashboards)@ == old(dashboards)@.push(
                (full_name, repo_name, url, d),
            ) && !warn,
            Lookup::Missing => final(dashboards)@ == old(dashboards)@ && !warn,
            Lookup::Failed => final(dashboards)@ == old(dashboards)@ && warn,
        },
{
    match lookup {
        Lookup::Found(d, url) => {
            dashboards.push((full_name, repo_name, url, d));
            false
        },
        Lookup::Missing => false,
        Lookup::Failed => true,
    }
}

/// A Bitbucket listing of pull requests answered `404 Not Found`: the
/// repository has no pull requests to read, and the dashboard read so far
/// is its dashboard.
pub fn pull_requests_missing(status: u16) -> (r: bool)
    ensures
        r == (status == 404),
{
    status == 404
}

/// Which Bitbucket projects are read.
#[derive(Debug, PartialEq, Eq)]
pub enum ProjectScope {
    /// Only the project with this key.
    One(String),
    /// Every project that the listing gives.
    All,
}

impl BitbucketClient {
    /// Which projects are read: the configured project, or all.
    pub fn project_scope(&self) -> (r: ProjectScope)
        ensures
            match self.project {
                Some(p) => r matches ProjectScope::One(k) && k@ == p@,
                None => r == ProjectScope::All,
            },
    {
        match &self.project {
            Some(p) => ProjectScope::One(p.clone()),
            None => ProjectScope::All,
        }
    }
}

// ---------------------------------------------------------------------------
// Repository names
// ---------------------------------------------------------------------------

/// A name the platform gave, or `unknown`.
pub open spec fn name_or_unknown(s: Option<String>) -> Seq<char> {
    match s {
        Some(t) => t@,
        None => "unknown"@,
    }
}

/// A name the platform gave, or `unknown`.
pub fn or_unknown(s: Option<String>) -> (r: String)
    ensures
        r@ == name_or_unknown(s),
{
    match s {
        Some(t) => t,
        None => string_of("unknown"),
    }
}

/// The full name `{owner}/{repo}` of a repository.
pub fn full_name(owner: &str, repo: &str) -> (r: String)
    ensures
        r@ == owner@ + "/"@ + repo@,
{
    let mut r = string_of(owner);
    r.append("/");
    r.append(repo);
    r
}

// ---------------------------------------------------------------------------
// Bitbucket
// ---------------------------------------------------------------------------

/// The build states that a build-status page lists decide the status shown:
/// `unknown` where no page was read, `no_build` where it lists none,
/// `failed` where one failed, else `in_progress` where one is running, else
/// `successful` where all succeeded, else `unknown`.
pub open spec fn build_status_of(states: Option<Seq<Seq<char>>>) -> Seq<char> {
    match states {
        None => "unknown"@,
        Some(s) => if s.len() == 0 {
            "no_build"@
        } else if exists|i: int| 0 <= i < s.len() && #[trigger] s[i] == "FAILED"@ {
            "failed"@
        } else if exists|i: int| 0 <= i < s.len() && #[trigger] s[i] == "INPROGRESS"@ {
            "in_progress"@
        } else if forall|i: int| 0 <= i < s.len() ==> #[trigger] s[i] == "SUCCESSFUL"@ {
            "successful"@
        } else {
            "unknown"@
        },
    }
}

/// The values of a sequence of strings.
pub open spec fn strings_view(v: Seq<String>) -> Seq<Seq<char>> {
    v.map_values(|s: String| s@)
}

/// Whether some entry of `states` is `state`.
fn any_state(states: &Vec<String>, state: &str) -> (r: bool)
    ensures
        r == exists|i: int| 0 <= i < states@.len() && #[trigger] strings_view(states@)[i] == state@,
{
    let n = states.len();
    let mut i: usize = 0;
    while i < n
        invariant
            n == states@.len(),
            i <= n,
            forall|k: int| 0 <= k < i ==> #[trigger] strings_view(states@)[k] != state@,
        decreases n - i,
    {
        if str_eq(states[i].as_str(), state) {
            assert(strings_view(states@)[i as int] == state@);
            return true;
        }
        i = i + 1;
    }
    false
}

/// Whether every entry of `states` is `state`.
fn all_states(states: &Vec<String>, state: &str) -> (r: bool)
    ensures
        r == forall|i: int| 0 <= i < states@.len() ==> #[trigger] strings_view(states@)[i] == state@,
{
    let n = states.len();
    let mut i: usize = 0;
    while i < n
        invariant
            n == states@.len(),
            i <= n,
            forall|k: int| 0 <= k < i ==> #[trigger] strings_view(states@)[k] == state@,
        decreases n - i,
    {
        if !str_eq(states[i].as_str(), state) {
            assert(strings_view(states@)[i as int] != state@);
            return false;
        }
        i = i + 1;
    }
    true
}

/// The build status of a commit, from the states of its builds (`None`
/// where they could not be read).
pub fn build_status(states: Option<&Vec<String>>) -> (r: String)
    ensures
        r@ == build_status_of(
            match states {
                Some(v) => Some(strings_view(v@)),
                None => None,
            },
        ),
{
    match states {
        None => string_of("unknown"),
        Some(v) => {
            if v.len() == 0 {
                string_of("no_build")
            } else if any_state(v, "FAILED") {
                string_of("failed")
            } else if any_state(v, "INPROGRESS") {
                string_of("in_progress")
            } else if all_states(v, "SUCCESSFUL") {
                string_of("successful")
            } else {
                string_of("unknown")
            }
        },
    }
}

/// A pull request is Renovate's when its source branch starts with
/// `renovate/`.
pub fn is_renovate_branch(branch: &str) -> (r: bool)
    ensures
        r == has_prefix(branch@, "renovate/"@),
{
    starts_with(branch, "renovate/")
}

/// The update that a Renovate pull request stands for: its branch, the
/// description `[PR #{id}] {title}`, unchecked, with its build status.
pub fn pr_update(id: u64, title: &str, branch: &str, build_status: String) -> (u: Update)
    ensures
        u@ == (UpdateView {
            branch: branch@,
            description: "[PR #"@ + decimal(id as nat) + "] "@ + title@,
            checked: false,
            build_status: Some(build_status@),
        }),
{
    let mut description = string_of("[PR #");
    push_decimal(&mut description, id);
    description.append("] ");
    description.append(title);
    Update { branch: string_of(branch), description, checked: false, build_status: Some(build_status) }
}

impl BitbucketClient {
    /// `{base}/rest/api/1.0/projects?limit=50&start={start}`.
    pub fn projects_url(&self, start: u32) -> (r: String)
        ensures
            r@ == self.base_url@ + "/rest/api/1.0/projects?limit=50&start="@ + decimal(
                start as nat,
            ),
    {
        let mut u = string_of(self.base_url.as_str());
        u.append("/rest/api/1.0/projects?limit=50&start=");
        push_decimal(&mut u, start as u64);
        u
    }

    /// `{base}/rest/api/1.0/projects/{key}/repos?limit=50&start={start}`.
    pub fn repos_url(&self, project_key: &str, start: u32) -> (r: String)
        ensures
            r@ == self.base_url@ + "/rest/api/1.0/projects/"@ + project_key@
                + "/repos?limit=50&start="@ + decimal(start as nat),
    {
        let mut u = string_of(self.base_url.as_str());
        u.append("/rest/api/1.0/projects/");
        u.append(project_key);
        u.append("/repos?limit=50&start=");
        push_decimal(&mut u, start as u64);
        u
    }

    /// `{base}/rest/api/1.0/projects/{key}/repos/{slug}/pull-requests?state=OPEN&limit=50&start={start}`.
    pub fn pull_requests_url(&self, project_key: &str, repo_slug: &str, start: u32) -> (r: String)
        ensures
            r@ == self.base_url@ + "/rest/api/1.0/projects/"@ + project_key@ + "/repos/"@
                + repo_slug@ + "/pull-requests?state=OPEN&limit=50&start="@ + decimal(
                start as nat,
            ),
    {
        let mut u = string_of(self.base_url.as_str());
        u.append("/rest/api/1.0/projects/");
        u.append(project_key);
        u.append("/repos/");
        u.append(repo_slug);
        u.append("/pull-requests?state=OPEN&limit=50&start=");
        push_decimal(&mut u, start as u64);
        u
    }

    /// `{base}/rest/build-status/1.0/commits/{commit}`.
    pub fn build_status_url(&self, commit: &str) -> (r: String)
        ensures
            r@ == self.base_url@ + "/rest/build-status/1.0/commits/"@ + commit@,
    {
        let mut u = string_of(self.base_url.as_str());
        u.append("/rest/build-status/1.0/commits/");
        u.append(commit);
        u
    }

    /// The web page of a repository's pull requests, which stands for its
    /// dashboard: `{base}/projects/{key}/repos/{slug}/pull-requests`.
    pub fn dashboard_url(&self, project_key: &str, repo_slug: &str) -> (r: String)
        ensures
            r@ == self.base_url@ + "/projects/"@ + project_key@ + "/repos/"@ + repo_slug@
                + "/pull-requests"@,
    {
        let mut u = string_of(self.base_url.as_str());
        u.append("/projects/");
        u.append(project_key);
        u.append("/repos/");
        u.append(repo_slug);
        u.append("/pull-requests");
        u
    }
}

} // verus!
