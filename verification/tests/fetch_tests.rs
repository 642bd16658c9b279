use renovate_metadashboard::fetch::{collect_dashboard, pull_requests_missing, Lookup, ProjectScope};
use renovate_metadashboard::parser::Dashboard;
use renovate_metadashboard::client::BitbucketClient;
use renovate_metadashboard::fetch::{
    build_status, find_dashboard_issue, full_name, is_renovate_branch, or_unknown, pr_update, IssueSummary,
};
use renovate_metadashboard::parser::DashboardError;

fn issue(title: Option<&str>, body: Option<&str>, url: Option<&str>) -> IssueSummary {
    IssueSummary {
        title: title.map(|s| s.to_string()),
        body: body.map(|s| s.to_string()),
        html_url: url.map(|s| s.to_string()),
    }
}

fn states(v: &[&str]) -> Vec<String> {
    v.iter().map(|s| s.to_string()).collect()
}

#[test]
fn first_dashboard_issue_is_read() {
    let issues = vec![
        issue(Some("Bug"), Some("## Open\n\n - [ ] <!-- rebase-branch=renovate/no -->x\n"), Some("u0")),
        issue(None, None, None),
        issue(
            Some("Dependency Dashboard"),
            Some("## Open\n\n - [ ] <!-- rebase-branch=renovate/yes -->y\n"),
            Some("https://f/issues/3"),
        ),
        issue(Some("Dependency Dashboard"), Some(""), Some("later")),
    ];
    let (d, url) = find_dashboard_issue(&issues).unwrap().unwrap();
    assert_eq!(url, "https://f/issues/3");
    assert_eq!(d.open.len(), 1);
    assert_eq!(d.open[0].branch, "renovate/yes");
}

#[test]
fn no_dashboard_issue() {
    let issues = vec![issue(Some("dependency dashboard"), None, None), issue(Some("Dependency Dashboard "), None, None)];
    assert!(find_dashboard_issue(&issues).unwrap().is_none());
    assert!(find_dashboard_issue(&vec![]).unwrap().is_none());
}

#[test]
fn dashboard_issue_defaults() {
    let issues = vec![issue(Some("Dependency Dashboard"), None, None)];
    let (d, url) = find_dashboard_issue(&issues).unwrap().unwrap();
    assert_eq!(url, "");
    assert!(d.open.is_empty());
}

#[test]
fn malformed_dashboard_issue() {
    let issues = vec![issue(Some("Dependency Dashboard"), Some("## Open\n\n - [ ] x <!-- -->\n"), None)];
    assert_eq!(find_dashboard_issue(&issues).unwrap_err(), DashboardError::MalformedComment);
}

#[test]
fn repository_names() {
    assert_eq!(or_unknown(None), "unknown");
    assert_eq!(or_unknown(Some("me".to_string())), "me");
    assert_eq!(full_name("me", "app"), "me/app");
}

#[test]
fn build_states() {
    assert_eq!(build_status(None), "unknown");
    assert_eq!(build_status(Some(&states(&[]))), "no_build");
    assert_eq!(build_status(Some(&states(&["SUCCESSFUL", "FAILED", "INPROGRESS"]))), "failed");
    assert_eq!(build_status(Some(&states(&["SUCCESSFUL", "INPROGRESS"]))), "in_progress");
    assert_eq!(build_status(Some(&states(&["SUCCESSFUL", "SUCCESSFUL"]))), "successful");
    assert_eq!(build_status(Some(&states(&["SUCCESSFUL", "CANCELLED"]))), "unknown");
}

#[test]
fn renovate_pull_requests() {
    assert!(is_renovate_branch("renovate/foo"));
    assert!(!is_renovate_branch("feature/renovate/foo"));
    assert!(!is_renovate_branch("renovate"));
    let u = pr_update(42, "Update foo", "renovate/foo", "successful".to_string());
    assert_eq!(u.branch, "renovate/foo");
    assert_eq!(u.description, "[PR #42] Update foo");
    assert!(!u.checked);
    assert_eq!(u.build_status.as_deref(), Some("successful"));
}

#[test]
fn bitbucket_urls() {
    let c = BitbucketClient {
        base_url: "https://bb".to_string(),
        token: "t".to_string(),
        project: None,
    };
    assert_eq!(c.projects_url(0), "https://bb/rest/api/1.0/projects?limit=50&start=0");
    assert_eq!(c.repos_url("PRJ", 50), "https://bb/rest/api/1.0/projects/PRJ/repos?limit=50&start=50");
    assert_eq!(
        c.pull_requests_url("PRJ", "repo", 100),
        "https://bb/rest/api/1.0/projects/PRJ/repos/repo/pull-requests?state=OPEN&limit=50&start=100"
    );
    assert_eq!(c.build_status_url("abc123"), "https://bb/rest/build-status/1.0/commits/abc123");
    assert_eq!(c.dashboard_url("PRJ", "repo"), "https://bb/projects/PRJ/repos/repo/pull-requests");
}

#[test]
fn collecting_lookups() {
    let mut ds = Vec::new();
    assert!(!collect_dashboard(&mut ds, "me/a".to_string(), "a".to_string(), Lookup::Found(Dashboard::new(), "u".to_string())));
    assert!(!collect_dashboard(&mut ds, "me/b".to_string(), "b".to_string(), Lookup::Missing));
    assert!(collect_dashboard(&mut ds, "me/c".to_string(), "c".to_string(), Lookup::Failed));
    assert_eq!(ds.len(), 1);
    assert_eq!(ds[0].0, "me/a");
    assert_eq!(ds[0].1, "a");
    assert_eq!(ds[0].2, "u");
}

#[test]
fn missing_pull_request_listing() {
    assert!(pull_requests_missing(404));
    assert!(!pull_requests_missing(200));
    assert!(!pull_requests_missing(500));
}

#[test]
fn bitbucket_project_scope() {
    let mut c = BitbucketClient { base_url: "b".to_string(), token: "t".to_string(), project: None };
    assert_eq!(c.project_scope(), ProjectScope::All);
    c.project = Some("PRJ".to_string());
    assert_eq!(c.project_scope(), ProjectScope::One("PRJ".to_string()));
}
