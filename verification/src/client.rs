//! What the library knows of each platform: where it is, and how its web
//! pages for a repository's pull requests are addressed. The HTTP clients
//! that talk to the platforms are built from these values by the program.
use crate::config::{Config, Platform};
use crate::text::{string_of, trim_slashes, trim_trailing_slashes};
use vstd::prelude::*;
use vstd::string::*;

verus! {

/// The host that `url::Url::parse` reads from `s`: `None` where the parse
/// fails, `Some(None)` where the URL has no host.
pub uninterp spec fn url_host(s: Seq<char>) -> Option<Option<Seq<char>>>;

/// Calls `url::Url::parse` and, on success, `Url::host_str` of the parsed URL.
/// Trusted: the result is the named `url_host` of the characters; URL syntax
/// is not restated.
#[verifier::external_body]
fn parse_url_host(s: &str) -> (r: Option<Option<String>>)
    ensures
        host_view(r) == url_host(s@),
{
    match url::Url::parse(s) {
        Ok(u) => Some(u.host_str().map(|h| h.to_string())),
        Err(_) => None,
    }
}

/// The value of a URL parse's result: `None` where the parse failed, else
/// the host it named, if any.
pub open spec fn host_view(parsed: Option<Option<String>>) -> Option<Option<Seq<char>>> {
    match parsed {
        None => None,
        Some(None) => Some(None),
        Some(Some(h)) => Some(Some(h@)),
    }
}

/// Why a platform client could not be set up.
#[derive(Debug)]
pub enum ClientError {
    /// `FORGEJO_URL` is not a URL.
    InvalidForgejoUrl(String),
    /// `GITLAB_URL` is not a URL.
    InvalidGitlabUrl,
    /// `GITLAB_URL` names no host.
    GitlabUrlMissingHost,
}

impl ClientError {
    /// The message that explains the error.
    pub open spec fn spec_message(&self) -> Seq<char> {
        match self {
            ClientError::InvalidForgejoUrl(u) => "Invalid FORGEJO_URL: "@ + u@,
            ClientError::InvalidGitlabUrl => "Invalid GITLAB_URL"@,
            ClientError::GitlabUrlMissingHost => "GITLAB_URL missing host"@,
        }
    }

    /// The message that explains the error.
    pub fn message(&self) -> (r: String)
        ensures
            r@ == self.spec_message(),
    {
        match self {
            ClientError::InvalidForgejoUrl(u) => {
                let mut m = string_of("Invalid FORGEJO_URL: ");
                m.append(u.as_str());
                m
            },
            ClientError::InvalidGitlabUrl => string_of("Invalid GITLAB_URL"),
            ClientError::GitlabUrlMissingHost => string_of("GITLAB_URL missing host"),
        }
    }
}

/// A Forgejo instance.
#[derive(Debug, Clone)]
pub struct ForgejoClient {
    /// The instance's URL without trailing `/`.
    pub base_url: String,
    /// The access token.
    pub token: String,
}

impl ForgejoClient {
    /// The client for the instance at `FORGEJO_URL`, which must be a URL.
    pub fn new(config: &Config) -> (r: Result<ForgejoClient, ClientError>)
        ensures
            match r {
                Ok(c) => url_host(config.forgejo_url@) is Some && c.base_url@
                    == trim_trailing_slashes(config.forgejo_url@) && c.token@
                    == config.forgejo_token@,
                Err(ClientError::InvalidForgejoUrl(u)) => url_host(config.forgejo_url@) is None
                    && u@ == config.forgejo_url@,
                Err(_) => false,
            },
    {
        let parsed = parse_url_host(config.forgejo_url.as_str());
        ForgejoClient::from_parsed_url(config, parsed)
    }

    /// The client for the instance at `FORGEJO_URL`, given what parsing the
    /// URL gave: an error where it is not a URL.
    pub fn from_parsed_url(config: &Config, parsed: Option<Option<String>>) -> (r: Result<
        ForgejoClient,
        ClientError,
    >)
        ensures
            match r {
                Ok(c) => host_view(parsed) is Some && c.base_url@ == trim_trailing_slashes(
                    config.forgejo_url@,
                ) && c.token@ == config.forgejo_token@,
                Err(ClientError::InvalidForgejoUrl(u)) => host_view(parsed) is None && u@
                    == config.forgejo_url@,
                Err(_) => false,
            },
    {
        match parsed {
            None => Err(ClientError::InvalidForgejoUrl(config.forgejo_url.clone())),
            Some(_) => Ok(
                ForgejoClient {
                    base_url: trim_slashes(config.forgejo_url.as_str()),
                    token: config.forgejo_token.clone(),
                },
            ),
        }
    }

    /// The instance's URL.
    pub fn base_url(&self) -> (r: &str)
        ensures
            r@ == self.base_url@,
    {
        self.base_url.as_str()
    }

    /// The pull requests of repository `full_name` (`owner/repo`) that a
    /// search for `branch` finds: `{base}/{full_name}/pulls?q={branch}`.
    pub fn pr_search_url(&self, full_name: &str, branch: &str) -> (r: String)
        ensures
            r@ == self.base_url@ + "/"@ + full_name@ + "/pulls?q="@ + branch@,
    {
        let mut u = string_of(self.base_url.as_str());
        u.append("/");
        u.append(full_name);
        u.append("/pulls?q=");
        u.append(branch);
        u
    }
}

/// A GitLab instance.
#[derive(Debug, Clone)]
pub struct GitlabClient {
    /// The instance's URL without trailing `/`.
    pub base_url: String,
    /// The host named by the instance's URL.
    pub host: String,
    /// The access token.
    pub token: String,
}

impl GitlabClient {
    /// The client for the instance at `GITLAB_URL`, which must be a URL that
    /// names a host.
    pub fn new(config: &Config) -> (r: Result<GitlabClient, ClientError>)
        ensures
            match r {
                Ok(c) => url_host(config.gitlab_url@) == Some(Some(c.host@)) && c.base_url@
                    == trim_trailing_slashes(config.gitlab_url@) && c.token@
                    == config.gitlab_token@,
                Err(ClientError::InvalidGitlabUrl) => url_host(config.gitlab_url@) is None,
                Err(ClientError::GitlabUrlMissingHost) => url_host(config.gitlab_url@) == Some(
                    None::<Seq<char>>,
                ),
                Err(_) => false,
            },
    {
        let parsed = parse_url_host(config.gitlab_url.as_str());
        GitlabClient::from_parsed_url(config, parsed)
    }

    /// The client for the instance at `GITLAB_URL`, given what parsing the
    /// URL gave: an error where it is not a URL or names no host.
    pub fn from_parsed_url(config: &Config, parsed: Option<Option<String>>) -> (r: Result<
        GitlabClient,
        ClientError,
    >)
        ensures
            match r {
                Ok(c) => host_view(parsed) == Some(Some(c.host@)) && c.base_url@
                    == trim_trailing_slashes(config.gitlab_url@) && c.token@
                    == config.gitlab_token@,
                Err(ClientError::InvalidGitlabUrl) => host_view(parsed) is None,
                Err(ClientError::GitlabUrlMissingHost) => host_view(parsed) == Some(
                    None::<Seq<char>>,
                ),
                Err(_) => false,
            },
    {
        match parsed {
            None => Err(ClientError::InvalidGitlabUrl),
            Some(None) => Err(ClientError::GitlabUrlMissingHost),
            Some(Some(host)) => Ok(
                GitlabClient {
                    base_url: trim_slashes(config.gitlab_url.as_str()),
                    host,
                    token: config.gitlab_token.clone(),
                },
            ),
        }
    }

    /// The instance's URL.
    pub fn base_url(&self) -> (r: &str)
        ensures
            r@ == self.base_url@,
    {
        self.base_url.as_str()
    }

    /// The merge requests of project `full_name` that a search for `branch`
    /// finds: `{base}/{full_name}/-/merge_requests?search={branch}`.
    pub fn pr_search_url(&self, full_name: &str, branch: &str) -> (r: String)
        ensures
            r@ == self.base_url@ + "/"@ + full_name@ + "/-/merge_requests?search="@ + branch@,
    {
        let mut u = string_of(self.base_url.as_str());
        u.append("/");
        u.append(full_name);
        u.append("/-/merge_requests?search=");
        u.append(branch);
        u
    }
}

/// A Bitbucket Server instance.
#[derive(Debug, Clone)]
pub struct BitbucketClient {
    /// The instance's URL without trailing `/`.
    pub base_url: String,
    /// The access token.
    pub token: String,
    /// The only project to read; all projects where `None`.
    pub project: Option<String>,
}

/// The index of the first `/` in `s`, if any.
pub open spec fn first_slash(s: Seq<char>) -> Option<int> {
    if exists|i: int| 0 <= i < s.len() && s[i] == '/' {
        Some(choose|i: int| 0 <= i < s.len() && s[i] == '/' && forall|k: int| 0 <= k < i ==> s[k] != '/')
    } else {
        None
    }
}

/// `full_name` split at its first `/` into project key and repository slug;
/// two empty strings where it holds no `/`.
pub open spec fn split_full_name(full_name: Seq<char>) -> (Seq<char>, Seq<char>) {
    match first_slash(full_name) {
        Some(i) => (full_name.take(i), full_name.skip(i + 1)),
        None => (seq![], seq![]),
    }
}

/// The index of the first `/` in `s`, if any.
pub fn find_slash(s: &str) -> (r: Option<usize>)
    ensures
        match r {
            Some(i) => first_slash(s@) == Some(i as int) && i < s@.len(),
            None => first_slash(s@) is None,
        },
{
    let n = s.unicode_len();
    let mut i: usize = 0;
    while i < n
        invariant
            n == s@.len(),
            i <= n,
            forall|k: int| 0 <= k < i ==> s@[k] != '/',
        decreases n - i,
    {
        if s.get_char(i) == '/' {
            let ghost w = choose|j: int|
                0 <= j < s@.len() && s@[j] == '/' && forall|k: int| 0 <= k < j ==> s@[k] != '/';
            assert(0 <= i < s@.len() && s@[i as int] == '/' && forall|k: int|
                0 <= k < i ==> s@[k] != '/');
            assert(w == i) by {
                if w < i {
                    assert(s@[w] != '/');
                } else if w > i {
                    assert(s@[i as int] != '/');
                }
            }
            return Some(i);
        }
        i = i + 1;
    }
    None
}

impl BitbucketClient {
    /// The client for the instance at `BITBUCKET_URL`.
    pub fn new(config: &Config) -> (r: BitbucketClient)
        ensures
            r.base_url@ == trim_trailing_slashes(config.bitbucket_url@),
            r.token@ == config.bitbucket_token@,
            r.project == config.bitbucket_project,
    {
        BitbucketClient {
            base_url: trim_slashes(config.bitbucket_url.as_str()),
            token: config.bitbucket_token.clone(),
            project: config.bitbucket_project.clone(),
        }
    }

    /// The instance's URL.
    pub fn base_url(&self) -> (r: &str)
        ensures
            r@ == self.base_url@,
    {
        self.base_url.as_str()
    }

    /// The pull requests of repository `full_name` (`PROJECT/slug`) that a
    /// search for `branch` finds:
    /// `{base}/projects/{key}/repos/{slug}/pull-requests?q={branch}`.
    pub fn pr_search_url(&self, full_name: &str, branch: &str) -> (r: String)
        ensures
            r@ == self.base_url@ + "/projects/"@ + split_full_name(full_name@).0 + "/repos/"@
                + split_full_name(full_name@).1 + "/pull-requests?q="@ + branch@,
    {
        let n = full_name.unicode_len();
        let (key, slug) = match find_slash(full_name) {
            Some(i) => (full_name.substring_char(0, i), full_name.substring_char(i + 1, n)),
            None => ("", ""),
        };
        proof {
            reveal_strlit("");
            assert(full_name@.take(0) =~= full_name@.subrange(0, 0));
            if let Some(i) = first_slash(full_name@) {
                assert(full_name@.take(i) =~= key@);
                assert(full_name@.skip(i + 1) =~= slug@);
            } else {
                assert(key@ =~= Seq::<char>::empty());
                assert(slug@ =~= Seq::<char>::empty());
            }
        }
        let mut u = string_of(self.base_url.as_str());
        u.append("/projects/");
        u.append(key);
        u.append("/repos/");
        u.append(slug);
        u.append("/pull-requests?q=");
        u.append(branch);
        u
    }
}

/// The client of the chosen platform.
#[derive(Debug, Clone)]
pub enum PlatformClient {
    Forgejo(ForgejoClient),
    Gitlab(GitlabClient),
    Bitbucket(BitbucketClient),
}

impl PlatformClient {
    /// The platform's URL.
    pub open spec fn spec_base_url(&self) -> Seq<char> {
        match self {
            PlatformClient::Forgejo(c) => c.base_url@,
            PlatformClient::Gitlab(c) => c.base_url@,
            PlatformClient::Bitbucket(c) => c.base_url@,
        }
    }

    /// The web page of the pull requests of `full_name` that a search for
    /// `branch` finds, in the platform's own URL scheme.
    pub open spec fn spec_pr_search_url(&self, full_name: Seq<char>, branch: Seq<char>) -> Seq<
        char,
    > {
        match self {
            PlatformClient::Forgejo(c) => c.base_url@ + "/"@ + full_name + "/pulls?q="@ + branch,
            PlatformClient::Gitlab(c) => c.base_url@ + "/"@ + full_name
                + "/-/merge_requests?search="@ + branch,
            PlatformClient::Bitbucket(c) => c.base_url@ + "/projects/"@ + split_full_name(
                full_name,
            ).0 + "/repos/"@ + split_full_name(full_name).1 + "/pull-requests?q="@ + branch,
        }
    }

    /// The pull-request search page of `full_name` for `branch`.
    pub fn pr_search_url(&self, full_name: &str, branch: &str) -> (r: String)
        ensures
            r@ == self.spec_pr_search_url(full_name@, branch@),
    {
        match self {
            PlatformClient::Forgejo(c) => c.pr_search_url(full_name, branch),
            PlatformClient::Gitlab(c) => c.pr_search_url(full_name, branch),
            PlatformClient::Bitbucket(c) => c.pr_search_url(full_name, branch),
        }
    }

    /// The platform's URL.
    pub fn base_url(&self) -> (r: &str)
        ensures
            r@ == self.spec_base_url(),
    {
        match self {
            PlatformClient::Forgejo(c) => c.base_url(),
            PlatformClient::Gitlab(c) => c.base_url(),
            PlatformClient::Bitbucket(c) => c.base_url(),
        }
    }
}

/// The client of the platform that the settings choose.
pub fn build_client(config: &Config) -> (r: Result<PlatformClient, ClientError>)
    ensures
        config.platform == Platform::Forgejo ==> match r {
            Ok(PlatformClient::Forgejo(c)) => url_host(config.forgejo_url@) is Some && c.base_url@
                == trim_trailing_slashes(config.forgejo_url@) && c.token@ == config.forgejo_token@,
            Err(ClientError::InvalidForgejoUrl(u)) => url_host(config.forgejo_url@) is None && u@
                == config.forgejo_url@,
            _ => false,
        },
        config.platform == Platform::Gitlab ==> match r {
            Ok(PlatformClient::Gitlab(c)) => url_host(config.gitlab_url@) == Some(
                Some(c.host@),
            ) && c.base_url@ == trim_trailing_slashes(config.gitlab_url@) && c.token@
                == config.gitlab_token@,
            Err(ClientError::InvalidGitlabUrl) => url_host(config.gitlab_url@) is None,
            Err(ClientError::GitlabUrlMissingHost) => url_host(config.gitlab_url@) == Some(
                None::<Seq<char>>,
            ),
            _ => false,
        },
        config.platform == Platform::Bitbucket ==> match r {
            Ok(PlatformClient::Bitbucket(c)) => c.base_url@ == trim_trailing_slashes(
                config.bitbucket_url@,
            ) && c.token@ == config.bitbucket_token@ && c.project == config.bitbucket_project,
            _ => false,
        },
{
    match config.platform {
        Platform::Forgejo => match ForgejoClient::new(config) {
            Ok(c) => Ok(PlatformClient::Forgejo(c)),
            Err(e) => Err(e),
        },
        Platform::Gitlab => match GitlabClient::new(config) {
            Ok(c) => Ok(PlatformClient::Gitlab(c)),
            Err(e) => Err(e),
        },
        Platform::Bitbucket => Ok(PlatformClient::Bitbucket(BitbucketClient::new(config))),
    }
}

/// The link of each platform's rows: a Forgejo pull-request search under
/// the repository, a GitLab merge-request search under the project, and for
/// Bitbucket the pull requests of repository `slug` in project `key`, read
/// from a full name `key/slug` whose key holds no `/` (the slug may).
pub proof fn law_pr_search_links(
    forgejo: ForgejoClient,
    gitlab: GitlabClient,
    bitbucket: BitbucketClient,
    key: Seq<char>,
    slug: Seq<char>,
    branch: Seq<char>,
)
    requires
        forall|i: int| 0 <= i < key.len() ==> key[i] != '/',
    ensures
        PlatformClient::Bitbucket(bitbucket).spec_pr_search_url(key + "/"@ + slug, branch)
            == bitbucket.base_url@ + "/projects/"@ + key + "/repos/"@ + slug
            + "/pull-requests?q="@ + branch,
        PlatformClient::Forgejo(forgejo).spec_pr_search_url(key + "/"@ + slug, branch)
            == forgejo.base_url@ + "/"@ + key + "/"@ + slug + "/pulls?q="@ + branch,
        PlatformClient::Gitlab(gitlab).spec_pr_search_url(key + "/"@ + slug, branch)
            == gitlab.base_url@ + "/"@ + key + "/"@ + slug + "/-/merge_requests?search="@
            + branch,
{
    reveal_strlit("/");
    let f = key + "/"@ + slug;
    assert(f[key.len() as int] == '/');
    let i = first_slash(f)->0;
    assert(i == key.len()) by {
        if i < key.len() {
            assert(f[i] == key[i]);
        } else if i > key.len() {
            assert(f[key.len() as int] == '/');
        }
    }
    assert(f.take(i) =~= key);
    assert(f.skip(i + 1) =~= slug);
    assert(f =~= key + "/"@ + slug);
}

/// A full name without `/` names no Bitbucket repository: both the project
/// key and the slug in the link are empty.
pub proof fn law_bitbucket_link_without_slash(
    bitbucket: BitbucketClient,
    full_name: Seq<char>,
    branch: Seq<char>,
)
    requires
        forall|i: int| 0 <= i < full_name.len() ==> full_name[i] != '/',
    ensures
        PlatformClient::Bitbucket(bitbucket).spec_pr_search_url(full_name, branch)
            == bitbucket.base_url@ + "/projects//repos//pull-requests?q="@ + branch,
{
    reveal_strlit("/projects//repos//pull-requests?q=");
    reveal_strlit("/projects/");
    reveal_strlit("/repos/");
    reveal_strlit("/pull-requests?q=");
    assert(first_slash(full_name) is None);
    assert("/projects/"@ + Seq::<char>::empty() + "/repos/"@ + Seq::<char>::empty()
        + "/pull-requests?q="@ =~= "/projects//repos//pull-requests?q="@);
    assert(bitbucket.base_url@ + "/projects/"@ + Seq::<char>::empty() + "/repos/"@
        + Seq::<char>::empty() + "/pull-requests?q="@ + branch =~= bitbucket.base_url@
        + "/projects//repos//pull-requests?q="@ + branch);
}

} // verus!
