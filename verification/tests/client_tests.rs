use renovate_metadashboard::client::{
    build_client, BitbucketClient, ClientError, ForgejoClient, GitlabClient, PlatformClient,
};
use renovate_metadashboard::config::{Config, Platform};

fn config(platform: Platform, url: &str) -> Config {
    Config {
        platform,
        forgejo_url: url.to_string(),
        forgejo_token: "ft".to_string(),
        gitlab_url: url.to_string(),
        gitlab_token: "gt".to_string(),
        bitbucket_url: url.to_string(),
        bitbucket_token: "bt".to_string(),
        bitbucket_project: None,
        report_output: "report.html".to_string(),
    }
}

#[test]
fn forgejo_client_trims_slashes() {
    let c = ForgejoClient::new(&config(Platform::Forgejo, "https://codeberg.org//")).unwrap();
    assert_eq!(c.base_url(), "https://codeberg.org");
    assert_eq!(c.token, "ft");
    assert_eq!(
        c.pr_search_url("me/app", "renovate/foo"),
        "https://codeberg.org/me/app/pulls?q=renovate/foo"
    );
}

#[test]
fn forgejo_invalid_url() {
    let e = ForgejoClient::new(&config(Platform::Forgejo, "not a url")).unwrap_err();
    assert!(matches!(&e, ClientError::InvalidForgejoUrl(u) if u == "not a url"));
    assert_eq!(e.message(), "Invalid FORGEJO_URL: not a url");
}

#[test]
fn gitlab_client_host_and_urls() {
    let c = GitlabClient::new(&config(Platform::Gitlab, "https://gitlab.example.com:8443/")).unwrap();
    assert_eq!(c.host, "gitlab.example.com");
    assert_eq!(c.base_url(), "https://gitlab.example.com:8443");
    assert_eq!(c.token, "gt");
    assert_eq!(
        c.pr_search_url("group/proj", "renovate/x"),
        "https://gitlab.example.com:8443/group/proj/-/merge_requests?search=renovate/x"
    );
}

#[test]
fn gitlab_url_errors() {
    let e = GitlabClient::new(&config(Platform::Gitlab, "::")).unwrap_err();
    assert!(matches!(e, ClientError::InvalidGitlabUrl));
    assert_eq!(e.message(), "Invalid GITLAB_URL");
    let e = GitlabClient::new(&config(Platform::Gitlab, "mailto:me@example.com")).unwrap_err();
    assert!(matches!(e, ClientError::GitlabUrlMissingHost));
    assert_eq!(e.message(), "GITLAB_URL missing host");
}

#[test]
fn bitbucket_pr_search_url_splits_full_name() {
    let mut cfg = config(Platform::Bitbucket, "https://bb.example.com/");
    cfg.bitbucket_project = Some("PRJ".to_string());
    let c = BitbucketClient::new(&cfg);
    assert_eq!(c.base_url(), "https://bb.example.com");
    assert_eq!(c.project, Some("PRJ".to_string()));
    assert_eq!(
        c.pr_search_url("PRJ/repo", "renovate/a"),
        "https://bb.example.com/projects/PRJ/repos/repo/pull-requests?q=renovate/a"
    );
    // only the first `/` separates
    assert_eq!(
        c.pr_search_url("PRJ/a/b", "x"),
        "https://bb.example.com/projects/PRJ/repos/a/b/pull-requests?q=x"
    );
    // no `/`: both parts empty
    assert_eq!(
        c.pr_search_url("PRJ", "x"),
        "https://bb.example.com/projects//repos//pull-requests?q=x"
    );
}

#[test]
fn build_client_per_platform() {
    match build_client(&config(Platform::Forgejo, "https://f.example.com")).unwrap() {
        PlatformClient::Forgejo(c) => assert_eq!(c.base_url, "https://f.example.com"),
        _ => panic!("wrong platform"),
    }
    let c = build_client(&config(Platform::Gitlab, "https://g.example.com/")).unwrap();
    assert_eq!(c.base_url(), "https://g.example.com");
    assert_eq!(c.pr_search_url("a/b", "c"), "https://g.example.com/a/b/-/merge_requests?search=c");
    let c = build_client(&config(Platform::Bitbucket, "no url at all")).unwrap();
    assert_eq!(c.base_url(), "no url at all");
    assert!(build_client(&config(Platform::Forgejo, "nope")).is_err());
}

#[test]
fn constructors_from_parse_results() {
    let cfg = config(Platform::Gitlab, "https://g.example.com/");
    let c = GitlabClient::from_parsed_url(&cfg, Some(Some("g.example.com".to_string()))).unwrap();
    assert_eq!(c.host, "g.example.com");
    assert_eq!(c.base_url, "https://g.example.com");
    assert!(matches!(
        GitlabClient::from_parsed_url(&cfg, Some(None)),
        Err(ClientError::GitlabUrlMissingHost)
    ));
    assert!(matches!(GitlabClient::from_parsed_url(&cfg, None), Err(ClientError::InvalidGitlabUrl)));
    let cfg = config(Platform::Forgejo, "https://f.example.com/");
    assert_eq!(ForgejoClient::from_parsed_url(&cfg, Some(None)).unwrap().base_url, "https://f.example.com");
    assert!(matches!(
        ForgejoClient::from_parsed_url(&cfg, None),
        Err(ClientError::InvalidForgejoUrl(u)) if u == "https://f.example.com/"
    ));
}
