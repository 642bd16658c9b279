use renovate_metadashboard::config::{Config, ConfigError, EnvVars, Platform, Setting};

fn s(v: &str) -> Option<String> {
    Some(v.to_string())
}

#[test]
fn platform_names_in_any_case() {
    assert_eq!(Platform::from_str("forgejo").unwrap(), Platform::Forgejo);
    assert_eq!(Platform::from_str("GitLab").unwrap(), Platform::Gitlab);
    assert_eq!(Platform::from_str("BITBUCKET").unwrap(), Platform::Bitbucket);
    assert_eq!(Platform::from_lowercase("gitlab"), Some(Platform::Gitlab));
    assert_eq!(Platform::from_lowercase("GitLab"), None);
}

#[test]
fn unknown_platform_is_refused() {
    match Platform::from_str("github") {
        Err(e) => {
            assert!(matches!(&e, ConfigError::UnknownPlatform(n) if n == "github"));
            assert_eq!(e.message(), "Unknown platform: github. Supported: forgejo, gitlab, bitbucket");
        }
        Ok(_) => panic!("github accepted"),
    }
    assert!(Platform::from_str("").is_err());
    assert!(Platform::from_str(" gitlab").is_err());
}

#[test]
fn defaults_to_forgejo() {
    let vars = EnvVars {
        forgejo_url: s("https://codeberg.org"),
        forgejo_token: s("t"),
        ..Default::default()
    };
    let c = Config::from_env(vars).unwrap();
    assert_eq!(c.platform, Platform::Forgejo);
    assert_eq!(c.forgejo_url, "https://codeberg.org");
    assert_eq!(c.forgejo_token, "t");
    assert_eq!(c.gitlab_url, "");
    assert_eq!(c.bitbucket_project, None);
    assert_eq!(c.report_output, "report.html");
}

#[test]
fn missing_settings_in_order() {
    let e = Config::from_env(EnvVars::default()).unwrap_err();
    assert!(matches!(e, ConfigError::NotSet(Setting::ForgejoUrl)));
    assert_eq!(e.message(), "FORGEJO_URL not set");

    let e = Config::from_env(EnvVars { forgejo_url: s("u"), ..Default::default() }).unwrap_err();
    assert!(matches!(e, ConfigError::NotSet(Setting::ForgejoToken)));
    assert_eq!(e.message(), "FORGEJO_TOKEN not set");

    let e = Config::from_env(EnvVars { platform: s("gitlab"), ..Default::default() }).unwrap_err();
    assert_eq!(e.message(), "GITLAB_URL not set");
    let e = Config::from_env(EnvVars {
        platform: s("gitlab"),
        gitlab_url: s("u"),
        gitlab_token: s(""),
        ..Default::default()
    })
    .unwrap_err();
    assert_eq!(e.message(), "GITLAB_TOKEN not set");

    let e = Config::from_env(EnvVars { platform: s("Bitbucket"), ..Default::default() }).unwrap_err();
    assert_eq!(e.message(), "BITBUCKET_URL not set");
    let e = Config::from_env(EnvVars {
        platform: s("bitbucket"),
        bitbucket_url: s("u"),
        ..Default::default()
    })
    .unwrap_err();
    assert_eq!(e.message(), "BITBUCKET_TOKEN not set");
}

#[test]
fn other_platforms_settings_are_not_required() {
    let c = Config::from_env(EnvVars {
        platform: s("bitbucket"),
        bitbucket_url: s("https://bb.example.com/"),
        bitbucket_token: s("tok"),
        bitbucket_project: s("PRJ"),
        report_output_file: s("out.html"),
        ..Default::default()
    })
    .unwrap();
    assert_eq!(c.platform, Platform::Bitbucket);
    assert_eq!(c.bitbucket_project, Some("PRJ".to_string()));
    assert_eq!(c.report_output, "out.html");
    assert_eq!(c.forgejo_url, "");
}

#[test]
fn empty_project_means_all_projects() {
    let c = Config::from_env(EnvVars {
        platform: s("bitbucket"),
        bitbucket_url: s("u"),
        bitbucket_token: s("t"),
        bitbucket_project: s(""),
        ..Default::default()
    })
    .unwrap();
    assert_eq!(c.bitbucket_project, None);
}

#[test]
fn unknown_platform_is_checked_first() {
    let e = Config::from_env(EnvVars { platform: s("svn"), ..Default::default() }).unwrap_err();
    assert_eq!(e.message(), "Unknown platform: svn. Supported: forgejo, gitlab, bitbucket");
}

#[test]
fn law_default_platform_example() {
    // PLATFORM unset, Forgejo settings given: accepted for Forgejo
    let c = Config::from_env(EnvVars {
        forgejo_url: s("u"),
        forgejo_token: s("t"),
        ..Default::default()
    })
    .unwrap();
    assert_eq!(c.platform, Platform::Forgejo);
    // names differing only in ASCII case select the same platform
    assert_eq!(Platform::from_str("gItLaB").unwrap(), Platform::from_str("GITLAB").unwrap());
    // the Kelvin sign lowercases to `k`, outside ASCII
    assert!(Platform::from_str("\u{212A}").is_err());
}
