//! Settings: which platform to read and how to reach it.
use crate::text::{str_eq, string_of};
use vstd::prelude::*;
use vstd::string::*;

verus! {

/// The code hosting platform whose dashboards are collected.
#[derive(Debug, Clone, Copy, PartialEq, Eq, Structural)]
pub enum Platform {
    Forgejo,
    Gitlab,
    Bitbucket,
}

/// The lowercase form of a string, as `str::to_lowercase` gives it (Unicode's
/// `Lowercase` mapping).
pub uninterp spec fn lowercase(s: Seq<char>) -> Seq<char>;

/// Whether every character is ASCII.
pub open spec fn all_ascii(s: Seq<char>) -> bool {
    forall|i: int| 0 <= i < s.len() ==> (#[trigger] s[i] as u32) < 128
}

/// The ASCII lowercase of one character: `A` to `Z` become `a` to `z`, any
/// other character stays.
pub open spec fn ascii_lower(c: char) -> char {
    if 'A' <= c <= 'Z' {
        ((c as u32) + 32) as char
    } else {
        c
    }
}

/// The ASCII lowercase of every character.
pub open spec fn ascii_lowercase(s: Seq<char>) -> Seq<char> {
    s.map_values(|c: char| ascii_lower(c))
}

/// Calls `str::to_lowercase`. Trusted: the result is the named `lowercase`
/// of the characters, and on ASCII text it maps `A`..`Z` to `a`..`z` and
/// keeps every other character, as Unicode's lowercase mapping does for
/// ASCII; the mapping of other characters is not restated.
#[verifier::external_body]
fn to_lowercase(s: &str) -> (r: String)
    ensures
        r@ == lowercase(s@),
        all_ascii(s@) ==> r@ == ascii_lowercase(s@),
{
    s.to_lowercase()
}

/// The platform that a lowercase name denotes.
pub open spec fn platform_named(l: Seq<char>) -> Option<Platform> {
    if l == "forgejo"@ {
        Some(Platform::Forgejo)
    } else if l == "gitlab"@ {
        Some(Platform::Gitlab)
    } else if l == "bitbucket"@ {
        Some(Platform::Bitbucket)
    } else {
        None
    }
}

/// A setting that must be given, by its variable's name.
#[derive(Debug, Clone, Copy, PartialEq, Eq, Structural)]
pub enum Setting {
    ForgejoUrl,
    ForgejoToken,
    GitlabUrl,
    GitlabToken,
    BitbucketUrl,
    BitbucketToken,
}

/// Why the settings were refused.
#[derive(Debug)]
pub enum ConfigError {
    /// `PLATFORM` names none of the supported platforms.
    UnknownPlatform(String),
    /// A setting that the chosen platform needs is empty or missing.
    NotSet(Setting),
}

impl Setting {
    /// The name of the setting's environment variable.
    pub open spec fn var_name(self) -> Seq<char> {
        match self {
            Setting::ForgejoUrl => "FORGEJO_URL"@,
            Setting::ForgejoToken => "FORGEJO_TOKEN"@,
            Setting::GitlabUrl => "GITLAB_URL"@,
            Setting::GitlabToken => "GITLAB_TOKEN"@,
            Setting::BitbucketUrl => "BITBUCKET_URL"@,
            Setting::BitbucketToken => "BITBUCKET_TOKEN"@,
        }
    }

    /// The name of the setting's environment variable.
    pub fn name(&self) -> (r: &'static str)
        ensures
            r@ == self.var_name(),
    {
        match self {
            Setting::ForgejoUrl => "FORGEJO_URL",
            Setting::ForgejoToken => "FORGEJO_TOKEN",
            Setting::GitlabUrl => "GITLAB_URL",
            Setting::GitlabToken => "GITLAB_TOKEN",
            Setting::BitbucketUrl => "BITBUCKET_URL",
            Setting::BitbucketToken => "BITBUCKET_TOKEN",
        }
    }
}

impl ConfigError {
    /// The message that explains the error.
    pub open spec fn spec_message(&self) -> Seq<char> {
        match self {
            ConfigError::UnknownPlatform(s) => "Unknown platform: "@ + s@
                + ". Supported: forgejo, gitlab, bitbucket"@,
            ConfigError::NotSet(v) => v.var_name() + " not set"@,
        }
    }

    /// The message that explains the error.
    pub fn message(&self) -> (r: String)
        ensures
            r@ == self.spec_message(),
    {
        match self {
            ConfigError::UnknownPlatform(s) => {
                let mut m = string_of("Unknown platform: ");
                m.append(s.as_str());
                m.append(". Supported: forgejo, gitlab, bitbucket");
                m
            },
            ConfigError::NotSet(v) => {
                let mut m = string_of(v.name());
                m.append(" not set");
                m
            },
        }
    }
}

impl Platform {
    /// The platform that a lowercase name denotes.
    pub fn from_lowercase(l: &str) -> (r: Option<Platform>)
        ensures
            r == platform_named(l@),
    {
        if str_eq(l, "forgejo") {
            Some(Platform::Forgejo)
        } else if str_eq(l, "gitlab") {
            Some(Platform::Gitlab)
        } else if str_eq(l, "bitbucket") {
            Some(Platform::Bitbucket)
        } else {
            None
        }
    }

    /// The platform that a name denotes, in any case: `forgejo`, `gitlab` or
    /// `bitbucket`.
    pub fn from_str(s: &str) -> (r: Result<Platform, ConfigError>)
        ensures
            match platform_named(lowercase(s@)) {
                Some(p) => r matches Ok(q) && q == p,
                None => r matches Err(ConfigError::UnknownPlatform(n)) && n@ == s@,
            },
            all_ascii(s@) ==> lowercase(s@) == ascii_lowercase(s@),
    {
        let l = to_lowercase(s);
        match Platform::from_lowercase(l.as_str()) {
            Some(p) => Ok(p),
            None => Err(ConfigError::UnknownPlatform(string_of(s))),
        }
    }
}

/// The environment variables that the settings are read from; `None` where a
/// variable is unset or not Unicode.
#[derive(Debug, Clone, Default)]
pub struct EnvVars {
    pub platform: Option<String>,
    pub forgejo_url: Option<String>,
    pub forgejo_token: Option<String>,
    pub gitlab_url: Option<String>,
    pub gitlab_token: Option<String>,
    pub bitbucket_url: Option<String>,
    pub bitbucket_token: Option<String>,
    pub bitbucket_project: Option<String>,
    pub report_output_file: Option<String>,
}

/// The settings.
#[derive(Debug, Clone)]
pub struct Config {
    pub platform: Platform,
    pub forgejo_url: String,
    pub forgejo_token: String,
    pub gitlab_url: String,
    pub gitlab_token: String,
    pub bitbucket_url: String,
    pub bitbucket_token: String,
    /// The only Bitbucket project to read; all projects where `None`.
    pub bitbucket_project: Option<String>,
    /// Where the report is written.
    pub report_output: String,
}

/// The value of a variable, or `default` where it is unset.
pub open spec fn var_or(v: Option<String>, default: Seq<char>) -> Seq<char> {
    match v {
        Some(s) => s@,
        None => default,
    }
}

/// The value of an optional variable: unset and empty both mean none.
pub open spec fn nonempty_var(v: Option<String>) -> Option<Seq<char>> {
    match v {
        Some(s) => if s@.len() > 0 {
            Some(s@)
        } else {
            None
        },
        None => None,
    }
}

/// The first setting that `platform` needs and that is empty, if any: its
/// URL, then its token.
pub open spec fn missing_setting(platform: Platform, vars: EnvVars) -> Option<Setting> {
    match platform {
        Platform::Forgejo => if var_or(vars.forgejo_url, seq![]).len() == 0 {
            Some(Setting::ForgejoUrl)
        } else if var_or(vars.forgejo_token, seq![]).len() == 0 {
            Some(Setting::ForgejoToken)
        } else {
            None
        },
        Platform::Gitlab => if var_or(vars.gitlab_url, seq![]).len() == 0 {
            Some(Setting::GitlabUrl)
        } else if var_or(vars.gitlab_token, seq![]).len() == 0 {
            Some(Setting::GitlabToken)
        } else {
            None
        },
        Platform::Bitbucket => if var_or(vars.bitbucket_url, seq![]).len() == 0 {
            Some(Setting::BitbucketUrl)
        } else if var_or(vars.bitbucket_token, seq![]).len() == 0 {
            Some(Setting::BitbucketToken)
        } else {
            None
        },
    }
}

/// The value of a variable, or the empty string where it is unset.
fn or_empty(v: Option<String>) -> (r: String)
    ensures
        r@ == var_or(v, seq![]),
{
    match v {
        Some(s) => s,
        None => String::new(),
    }
}

impl Config {
    /// The settings that the environment variables give. `PLATFORM` defaults
    /// to `forgejo` and `REPORT_OUTPUT_FILE` to `report.html`; the URL and the
    /// token of the chosen platform must not be empty.
    pub fn from_env(vars: EnvVars) -> (r: Result<Config, ConfigError>)
        ensures
            ({
                let name = var_or(vars.platform, "forgejo"@);
                match platform_named(lowercase(name)) {
                    None => r matches Err(ConfigError::UnknownPlatform(n)) && n@ == name,
                    Some(p) => match missing_setting(p, vars) {
                        Some(v) => r matches Err(ConfigError::NotSet(w)) && w == v,
                        None => r matches Ok(c) && {
                            &&& c.platform == p
                            &&& c.forgejo_url@ == var_or(vars.forgejo_url, seq![])
                            &&& c.forgejo_token@ == var_or(vars.forgejo_token, seq![])
                            &&& c.gitlab_url@ == var_or(vars.gitlab_url, seq![])
                            &&& c.gitlab_token@ == var_or(vars.gitlab_token, seq![])
                            &&& c.bitbucket_url@ == var_or(vars.bitbucket_url, seq![])
                            &&& c.bitbucket_token@ == var_or(vars.bitbucket_token, seq![])
                            &&& match c.bitbucket_project {
                                Some(s) => nonempty_var(vars.bitbucket_project) == Some(s@),
                                None => nonempty_var(vars.bitbucket_project) is None,
                            }
                            &&& c.report_output@ == var_or(
                                vars.report_output_file,
                                "report.html"@,
                            )
                        },
                    },
                }
            }),
            all_ascii(var_or(vars.platform, "forgejo"@)) ==> lowercase(
                var_or(vars.platform, "forgejo"@),
            ) == ascii_lowercase(var_or(vars.platform, "forgejo"@)),
            vars.platform is None ==> platform_named(lowercase("forgejo"@)) == Some(
                Platform::Forgejo,
            ),
    {
        let platform_str = match vars.platform {
            Some(s) => s,
            None => string_of("forgejo"),
        };
        proof {
            reveal_strlit("forgejo");
            assert(ascii_lowercase("forgejo"@) =~= "forgejo"@);
        }
        let platform = match Platform::from_str(platform_str.as_str()) {
            Ok(p) => p,
            Err(e) => return Err(e),
        };
        let forgejo_url = or_empty(vars.forgejo_url);
        let forgejo_token = or_empty(vars.forgejo_token);
        let gitlab_url = or_empty(vars.gitlab_url);
        let gitlab_token = or_empty(vars.gitlab_token);
        let bitbucket_url = or_empty(vars.bitbucket_url);
        let bitbucket_token = or_empty(vars.bitbucket_token);
        let bitbucket_project = match vars.bitbucket_project {
            Some(s) => if s.as_str().unicode_len() > 0 {
                Some(s)
            } else {
                None
            },
            None => None,
        };
        let report_output = match vars.report_output_file {
            Some(s) => s,
            None => string_of("report.html"),
        };
        match platform {
            Platform::Forgejo => {
                if forgejo_url.as_str().unicode_len() == 0 {
                    return Err(ConfigError::NotSet(Setting::ForgejoUrl));
                }
                if forgejo_token.as_str().unicode_len() == 0 {
                    return Err(ConfigError::NotSet(Setting::ForgejoToken));
                }
            },
            Platform::Gitlab => {
                if gitlab_url.as_str().unicode_len() == 0 {
                    return Err(ConfigError::NotSet(Setting::GitlabUrl));
                }
                if gitlab_token.as_str().unicode_len() == 0 {
                    return Err(ConfigError::NotSet(Setting::GitlabToken));
                }
            },
            Platform::Bitbucket => {
                if bitbucket_url.as_str().unicode_len() == 0 {
                    return Err(ConfigError::NotSet(Setting::BitbucketUrl));
                }
                if bitbucket_token.as_str().unicode_len() == 0 {
                    return Err(ConfigError::NotSet(Setting::BitbucketToken));
                }
            },
        }
        Ok(
            Config {
                platform,
                forgejo_url,
                forgejo_token,
                gitlab_url,
                gitlab_token,
                bitbucket_url,
                bitbucket_token,
                bitbucket_project,
                report_output,
            },
        )
    }
}

/// With `PLATFORM` unset the platform is Forgejo: the default name is ASCII
/// and its own lowercase, and it names Forgejo; the settings are then
/// accepted as soon as `FORGEJO_URL` and `FORGEJO_TOKEN` are not empty.
pub proof fn law_default_platform_is_forgejo(vars: EnvVars)
    requires
        vars.platform is None,
        var_or(vars.forgejo_url, seq![]).len() > 0,
        var_or(vars.forgejo_token, seq![]).len() > 0,
    ensures
        all_ascii(var_or(vars.platform, "forgejo"@)),
        platform_named(ascii_lowercase(var_or(vars.platform, "forgejo"@))) == Some(
            Platform::Forgejo,
        ),
        missing_setting(Platform::Forgejo, vars) is None,
{
    reveal_strlit("forgejo");
    assert(ascii_lowercase("forgejo"@) =~= "forgejo"@);
}

/// Each platform is judged by its own two variables alone: its settings are
/// accepted exactly when its URL and its token are both non-empty; where the
/// URL is empty the refusal names the URL, else where the token is empty it
/// names the token; and two environments that agree on the platform's URL
/// and token get the same answer, whatever the other variables hold.
pub proof fn law_platform_needs_its_own_url_and_token(vars: EnvVars, other: EnvVars)
    ensures
        (var_or(vars.forgejo_url, seq![]).len() > 0 && var_or(vars.forgejo_token, seq![]).len()
            > 0) ==> missing_setting(Platform::Forgejo, vars) is None,
        var_or(vars.forgejo_url, seq![]).len() == 0 ==> missing_setting(Platform::Forgejo, vars)
            == Some(Setting::ForgejoUrl),
        (var_or(vars.forgejo_url, seq![]).len() > 0 && var_or(vars.forgejo_token, seq![]).len()
            == 0) ==> missing_setting(Platform::Forgejo, vars) == Some(Setting::ForgejoToken),
        (var_or(vars.gitlab_url, seq![]).len() > 0 && var_or(vars.gitlab_token, seq![]).len()
            > 0) ==> missing_setting(Platform::Gitlab, vars) is None,
        var_or(vars.gitlab_url, seq![]).len() == 0 ==> missing_setting(Platform::Gitlab, vars)
            == Some(Setting::GitlabUrl),
        (var_or(vars.gitlab_url, seq![]).len() > 0 && var_or(vars.gitlab_token, seq![]).len()
            == 0) ==> missing_setting(Platform::Gitlab, vars) == Some(Setting::GitlabToken),
        (var_or(vars.bitbucket_url, seq![]).len() > 0 && var_or(
            vars.bitbucket_token,
            seq![],
        ).len() > 0) ==> missing_setting(Platform::Bitbucket, vars) is None,
        var_or(vars.bitbucket_url, seq![]).len() == 0 ==> missing_setting(
            Platform::Bitbucket,
            vars,
        ) == Some(Setting::BitbucketUrl),
        (var_or(vars.bitbucket_url, seq![]).len() > 0 && var_or(
            vars.bitbucket_token,
            seq![],
        ).len() == 0) ==> missing_setting(Platform::Bitbucket, vars) == Some(
            Setting::BitbucketToken,
        ),
        (other.forgejo_url == vars.forgejo_url && other.forgejo_token == vars.forgejo_token)
            ==> missing_setting(Platform::Forgejo, other) == missing_setting(
            Platform::Forgejo,
            vars,
        ),
        (other.gitlab_url == vars.gitlab_url && other.gitlab_token == vars.gitlab_token)
            ==> missing_setting(Platform::Gitlab, other) == missing_setting(
            Platform::Gitlab,
            vars,
        ),
        (other.bitbucket_url == vars.bitbucket_url && other.bitbucket_token
            == vars.bitbucket_token) ==> missing_setting(Platform::Bitbucket, other)
            == missing_setting(Platform::Bitbucket, vars),
{
}

} // verus!
