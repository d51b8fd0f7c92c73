//! The code-review side: recognising a GitHub remote and building review links.
use vstd::prelude::*;
use vstd::string::StrSliceExecFns;
use crate::text::{owned, push_str, str_eq};

verus! {

/// The prefix of a GitHub remote reached over ssh.
pub open spec fn ssh_prefix() -> Seq<char> {
    "git@github.com:"@
}

/// The prefix of a GitHub remote reached over https.
pub open spec fn https_prefix() -> Seq<char> {
    "https://github.com/"@
}

/// Whether `s` begins with `p`.
pub open spec fn has_prefix(s: Seq<char>, p: Seq<char>) -> bool {
    p.len() <= s.len() && s.subrange(0, p.len() as int) == p
}

/// `p` with a trailing `.git` removed, when it has one.
pub open spec fn strip_git(p: Seq<char>) -> Seq<char> {
    if p.len() >= 4 && p.subrange(p.len() - 4, p.len() as int) == ".git"@ {
        p.subrange(0, p.len() - 4)
    } else {
        p
    }
}

/// The `owner/repo` part of a GitHub remote URL, or `None` for another remote.
pub open spec fn repo_path_of(url: Seq<char>) -> Option<Seq<char>> {
    if has_prefix(url, ssh_prefix()) {
        Some(strip_git(url.skip(ssh_prefix().len() as int)))
    } else if has_prefix(url, https_prefix()) {
        Some(strip_git(url.skip(https_prefix().len() as int)))
    } else {
        None
    }
}

/// `p` holds exactly one slash, at `k`.
pub open spec fn single_slash_at(p: Seq<char>, k: int) -> bool {
    &&& 0 <= k < p.len()
    &&& p[k] == '/'
    &&& forall|j: int| 0 <= j < p.len() && j != k ==> p[j] != '/'
}

/// Owner and repository named by a GitHub remote URL: present when the URL has
/// a GitHub prefix and the rest, without `.git`, is two parts around one slash.
pub open spec fn github_info_of(url: Seq<char>) -> Option<(Seq<char>, Seq<char>)> {
    match repo_path_of(url) {
        Some(p) => split_at_slash(p),
        None => None,
    }
}

/// The two parts of `p` around its only slash, if it has exactly one.
pub open spec fn split_at_slash(p: Seq<char>) -> Option<(Seq<char>, Seq<char>)> {
    if exists|k: int| single_slash_at(p, k) {
        let k = choose|k: int| single_slash_at(p, k);
        Some((p.subrange(0, k), p.skip(k + 1)))
    } else {
        None
    }
}

/// Whether `s` begins with the literal `p`.
fn starts_with(s: &str, p: &str) -> (r: bool)
    ensures
        r == has_prefix(s@, p@),
{
    let n = s.unicode_len();
    let m = p.unicode_len();
    if m > n {
        return false;
    }
    str_eq(s.substring_char(0, m), p)
}

/// The text after a prefix of `m` characters, without a trailing `.git`.
fn path_after(s: &str, m: usize) -> (r: &str)
    requires
        m <= s@.len(),
    ensures
        r@ == strip_git(s@.skip(m as int)),
{
    let n = s.unicode_len();
    let rest = s.substring_char(m, n);
    assert(rest@ == s@.skip(m as int));
    let k = rest.unicode_len();
    if k >= 4 && str_eq(rest.substring_char(k - 4, k), ".git") {
        rest.substring_char(0, k - 4)
    } else {
        rest
    }
}

/// Reads the owner and the repository name out of a GitHub remote URL, in its
/// ssh form (`git@github.com:owner/repo.git`) or its https form
/// (`https://github.com/owner/repo.git`); the `.git` suffix is optional.
/// Any other remote gives `None`.
pub fn extract_github_info(remote_url: &str) -> (r: Option<(String, String)>)
    ensures
        github_info_of(remote_url@) == match r {
            Some((o, n)) => Some((o@, n@)),
            None => None,
        },
{
    let path: &str;
    if starts_with(remote_url, "git@github.com:") {
        proof { reveal_strlit("git@github.com:"); }
        path = path_after(remote_url, 15);
    } else if starts_with(remote_url, "https://github.com/") {
        proof { reveal_strlit("https://github.com/"); }
        path = path_after(remote_url, 19);
    } else {
        return None;
    }
    let ghost p = path@;
    assert(repo_path_of(remote_url@) == Some(p));
    let n = path.unicode_len();
    let mut slashes: usize = 0;
    let mut pos: usize = 0;
    let mut pos2: usize = 0;
    let mut i: usize = 0;
    while i < n && slashes < 2
        invariant
            n == p.len(),
            p == path@,
            repo_path_of(remote_url@) == Some(p),
            i <= n,
            slashes <= 2,
            slashes == 0 ==> forall|j: int| 0 <= j < i ==> p[j] != '/',
            slashes == 1 ==> pos < i && p[pos as int] == '/' && forall|j: int|
                0 <= j < i && j != pos ==> p[j] != '/',
            slashes == 2 ==> pos < i && pos2 < i && pos2 < n && pos != pos2 && p[pos as int] == '/'
                && p[pos2 as int] == '/',
        decreases n - i,
    {
        if path.get_char(i) == '/' {
            if slashes == 0 {
                pos = i;
                slashes = 1;
            } else {
                pos2 = i;
                slashes = 2;
            }
        }
        i = i + 1;
    }
    if slashes == 1 {
        let owner = owned(path.substring_char(0, pos));
        let repo = owned(path.substring_char(pos + 1, n));
        assert(single_slash_at(p, pos as int));
        assert(repo@ == p.skip(pos + 1));
        assert(owner@ == p.subrange(0, pos as int));
        assert(single_slash_at(p, pos as int));
        let ghost k = choose|k: int| single_slash_at(p, k);
        assert(k == pos) by {
            if k != pos {
                assert(p[k] != '/');
            }
        }
        assert(p.subrange(0, k) == owner@);
        assert(p.skip(k + 1) == repo@);
        assert(repo_path_of(remote_url@) == Some(p));
        assert(exists|k: int| single_slash_at(p, k));
        assert(split_at_slash(p) == Some((p.subrange(0, k), p.skip(k + 1))));
        assert(github_info_of(remote_url@) == Some((owner@, repo@)));
        Some((owner, repo))
    } else {
        assert forall|k: int| !#[trigger] single_slash_at(p, k) by {
            if slashes == 0 {
                if 0 <= k < p.len() {
                    assert(p[k] != '/');
                }
            } else if 0 <= k < p.len() && p[k] == '/' {
                if k == pos {
                    assert(p[pos2 as int] == '/');
                } else {
                    assert(p[pos as int] == '/');
                }
            }
        }
        assert(!exists|k: int| single_slash_at(p, k));
        assert(github_info_of(remote_url@) is None);
        None
    }
}

/// The link for comparing a branch against the base on GitHub:
/// `https://github.com/{owner}/{repo}/compare/{base}...{head}`.
pub open spec fn compare_url_of(owner: Seq<char>, repo: Seq<char>, base: Seq<char>, head: Seq<char>) -> Seq<char> {
    "https://github.com/"@ + owner + "/"@ + repo + "/compare/"@ + base + "..."@ + head
}

/// The link of an opened pull request on GitHub.
pub open spec fn pull_url_of(owner: Seq<char>, repo: Seq<char>) -> Seq<char> {
    "https://github.com/"@ + owner + "/"@ + repo + "/pull/123"@
}

/// Builds the comparison link of a branch against the base branch.
pub fn compare_url(owner: &str, repo: &str, base: &str, head: &str) -> (r: String)
    ensures
        r@ == compare_url_of(owner@, repo@, base@, head@),
{
    let mut s = String::new();
    push_str(&mut s, "https://github.com/");
    push_str(&mut s, owner);
    push_str(&mut s, "/");
    push_str(&mut s, repo);
    push_str(&mut s, "/compare/");
    push_str(&mut s, base);
    push_str(&mut s, "...");
    push_str(&mut s, head);
    s
}

/// The state of a pull request.
#[derive(Debug, Clone, Copy, PartialEq, Eq, Structural)]
pub enum PullRequestStatus {
    Open,
    Merged,
    Closed,
}

/// A client for one GitHub repository. Without an access token no request is
/// made and the comparison link stands in for the pull request.
pub struct GitHubClient {
    pub token: Option<String>,
    pub owner: String,
    pub repo: String,
}

impl GitHubClient {
    /// A client for `owner/repo`, with the access token found in the
    /// environment, if any.
    pub fn new(owner: String, repo: String, token: Option<String>) -> (r: GitHubClient)
        ensures
            r.owner@ == owner@,
            r.repo@ == repo@,
            r.token == token,
    {
        GitHubClient { token, owner, repo }
    }

    /// The link of the review request for branch `head` against `base`: the
    /// comparison link when no token is configured, the pull request's link
    /// otherwise.
    pub fn create_pull_request(&self, title: &str, body: &str, head: &str, base: &str) -> (r: String)
        ensures
            self.token is None ==> r@ == compare_url_of(self.owner@, self.repo@, base@, head@),
            self.token is Some ==> r@ == pull_url_of(self.owner@, self.repo@),
    {
        if self.token.is_none() {
            return compare_url(self.owner.as_str(), self.repo.as_str(), base, head);
        }
        let mut s = String::new();
        push_str(&mut s, "https://github.com/");
        push_str(&mut s, self.owner.as_str());
        push_str(&mut s, "/");
        push_str(&mut s, self.repo.as_str());
        push_str(&mut s, "/pull/123");
        s
    }

    /// The state of a pull request; every request reads as open.
    pub fn get_pull_request_status(&self, pr_number: u32) -> (r: PullRequestStatus)
        ensures
            r == PullRequestStatus::Open,
    {
        PullRequestStatus::Open
    }
}

} // verus!

verus! {

/// The note stored in place of a review link when no GitHub remote is known.
pub open spec fn manual_link_of(branch: Seq<char>) -> Seq<char> {
    "Manual PR needed for branch: "@ + branch
}

/// The review link recorded when `branch` is submitted: through the GitHub
/// client when the remote is a GitHub repository (against base `main`), and the
/// manual note otherwise.
pub open spec fn review_link_of(remote: Option<Seq<char>>, has_token: bool, branch: Seq<char>) -> Seq<char> {
    match remote {
        Some(url) => match github_info_of(url) {
            Some((owner, repo)) => if has_token {
                pull_url_of(owner, repo)
            } else {
                compare_url_of(owner, repo, "main"@, branch)
            },
            None => manual_link_of(branch),
        },
        None => manual_link_of(branch),
    }
}

/// Opens a review request for `branch` with the given title and body and
/// returns the link to record: the request's link when the remote is on
/// GitHub, and a note asking for a manual request otherwise.
pub fn review_link(remote_url: &Option<String>, token: Option<String>, title: &str, body: &str, branch: &str) -> (r: String)
    ensures
        r@ == review_link_of(match remote_url {
            Some(u) => Some(u@),
            None => None,
        }, token is Some, branch@),
{
    if let Some(url) = remote_url {
        if let Some((owner, repo)) = extract_github_info(url.as_str()) {
            let client = GitHubClient::new(owner, repo, token);
            return client.create_pull_request(title, body, branch, "main");
        }
    }
    let mut s = String::new();
    push_str(&mut s, "Manual PR needed for branch: ");
    push_str(&mut s, branch);
    s
}

} // verus!
