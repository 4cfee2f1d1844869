//! The API's resources and how each is shown as a line of text.
use vstd::prelude::*;
use crate::text::{
    i64_to_decimal, int_decimal, pad_right, pad_right_spec, push_str, trim, trim_spec,
};
use vstd::utf8::{decode_utf8, encode_utf8, is_char_boundary};

verus! {

/// A value with a one-line text form.
pub trait TextView {
    /// Whether the value can be shown at all.
    spec fn renderable(&self) -> bool;

    /// The text form of the value.
    spec fn text_spec(&self) -> Seq<char>;

    /// Renders the value.
    fn to_text(&self) -> (r: String)
        requires
            self.renderable(),
        ensures
            r@ == self.text_spec(),
    ;
}

/// An account of the API.
#[derive(Debug)]
pub struct User {
    pub id: i64,
    pub username: String,
    pub nickname: Option<String>,
    pub email: Option<String>,
}

/// A repository.
#[derive(Debug)]
pub struct Repo {
    pub id: i64,
    pub slug: String,
    pub name: String,
    pub description: Option<String>,
    pub private: bool,
}

/// An issue of a repository.
#[derive(Debug)]
pub struct Issue {
    pub id: i64,
    pub number: i64,
    pub title: String,
    pub state: String,
    pub author: User,
    pub created_at: String,
}

/// The state of a pull request.
#[derive(Debug, Clone, Copy, PartialEq, Eq)]
pub enum PrState {
    Open,
    Closed,
    Merged,
}

/// A pull request of a repository.
#[derive(Debug)]
pub struct PullRequest {
    pub id: i64,
    pub number: i64,
    pub title: String,
    pub state: PrState,
    pub source_branch: String,
    pub target_branch: String,
    pub author: String,
    pub created_at: String,
}

/// The answer to starting or stopping a build.
#[derive(Debug)]
pub struct BuildResult {
    pub build_log_url: Option<String>,
    pub message: Option<String>,
    pub sn: Option<String>,
    pub success: Option<bool>,
}

/// One build of a repository's pipeline, as the build list gives it.
#[derive(Debug)]
pub struct LogInfo {
    pub sn: Option<String>,
    pub status: Option<String>,
    pub sha: Option<String>,
    pub create_time: Option<i64>,
    pub duration: Option<i64>,
    pub title: Option<String>,
    pub commit_title: Option<String>,
    pub build_log_url: Option<String>,
}

/// The status of one build.
#[derive(Debug)]
pub struct BuildStatusResult {
    pub status: Option<String>,
}

/// The characters of an optional string, or `default` where it is absent.
pub open spec fn or_default(o: Option<String>, default: Seq<char>) -> Seq<char> {
    match o {
        Some(s) => s@,
        None => default,
    }
}

/// The characters of `o`, or `default` where it is absent.
fn str_or<'a>(o: &'a Option<String>, default: &'a str) -> (r: &'a str)
    ensures
        r@ == or_default(*o, default@),
{
    match o {
        Some(s) => s.as_str(),
        None => default,
    }
}

/// The text of a boolean, as `bool`'s `Display` writes it.
pub open spec fn bool_text(b: bool) -> Seq<char> {
    if b {
        "true"@
    } else {
        "false"@
    }
}

/// The text form of a user: `name (nickname) <email>`, with `-` for a
/// missing nickname and no `<...>` part without an email.
pub open spec fn user_text(u: User) -> Seq<char> {
    let head = u.username@ + " ("@ + or_default(u.nickname, "-"@) + ")"@;
    match u.email {
        Some(e) => head + " <"@ + e@ + ">"@,
        None => head,
    }
}

impl TextView for User {
    open spec fn renderable(&self) -> bool {
        true
    }

    open spec fn text_spec(&self) -> Seq<char> {
        user_text(*self)
    }

    fn to_text(&self) -> (r: String) {
        let mut s = String::from_str(self.username.as_str());
        push_str(&mut s, " (");
        push_str(&mut s, str_or(&self.nickname, "-"));
        push_str(&mut s, ")");
        if let Some(e) = &self.email {
            push_str(&mut s, " <");
            push_str(&mut s, e.as_str());
            push_str(&mut s, ">");
        }
        s
    }
}

/// The visibility tag of a repository.
pub open spec fn visibility_text(private: bool) -> Seq<char> {
    if private {
        "[private]"@
    } else {
        "[public]"@
    }
}

/// The text form of a repository: slug in 30 columns, visibility in 10,
/// then the description.
pub open spec fn repo_text(r: Repo) -> Seq<char> {
    pad_right_spec(r.slug@, 30) + " "@ + pad_right_spec(visibility_text(r.private), 10) + " "@
        + or_default(r.description, ""@)
}

impl TextView for Repo {
    open spec fn renderable(&self) -> bool {
        true
    }

    open spec fn text_spec(&self) -> Seq<char> {
        repo_text(*self)
    }

    fn to_text(&self) -> (r: String) {
        let visibility = if self.private {
            "[private]"
        } else {
            "[public]"
        };
        let mut s = pad_right(self.slug.as_str(), 30);
        push_str(&mut s, " ");
        let v = pad_right(visibility, 10);
        push_str(&mut s, v.as_str());
        push_str(&mut s, " ");
        push_str(&mut s, str_or(&self.description, ""));
        s
    }
}

/// The text form of an issue: `#number [state] title @author`, with the
/// number in 6 columns, the state in 6 and the title in 50.
pub open spec fn issue_text(i: Issue) -> Seq<char> {
    "#"@ + pad_right_spec(int_decimal(i.number as int), 6) + " ["@ + pad_right_spec(i.state@, 6)
        + "] "@ + pad_right_spec(i.title@, 50) + " @"@ + i.author.username@
}

impl TextView for Issue {
    open spec fn renderable(&self) -> bool {
        true
    }

    open spec fn text_spec(&self) -> Seq<char> {
        issue_text(*self)
    }

    fn to_text(&self) -> (r: String) {
        let mut s = String::from_str("#");
        let number = i64_to_decimal(self.number);
        let n = pad_right(number.as_str(), 6);
        push_str(&mut s, n.as_str());
        push_str(&mut s, " [");
        let st = pad_right(self.state.as_str(), 6);
        push_str(&mut s, st.as_str());
        push_str(&mut s, "] ");
        let t = pad_right(self.title.as_str(), 50);
        push_str(&mut s, t.as_str());
        push_str(&mut s, " @");
        push_str(&mut s, self.author.username.as_str());
        s
    }
}

/// The name of a pull request state.
pub open spec fn pr_state_text(s: PrState) -> Seq<char> {
    match s {
        PrState::Open => "open"@,
        PrState::Closed => "closed"@,
        PrState::Merged => "merged"@,
    }
}

impl TextView for PrState {
    open spec fn renderable(&self) -> bool {
        true
    }

    open spec fn text_spec(&self) -> Seq<char> {
        pr_state_text(*self)
    }

    fn to_text(&self) -> (r: String) {
        match self {
            PrState::Open => String::from_str("open"),
            PrState::Closed => String::from_str("closed"),
            PrState::Merged => String::from_str("merged"),
        }
    }
}

/// The text form of a pull request:
/// `#number [state] title (source -> target) @author`, with the number in 6
/// columns and the title in 50. The state is written without padding: its
/// `Display` writes the name directly, which ignores the field width.
pub open spec fn pull_request_text(p: PullRequest) -> Seq<char> {
    "#"@ + pad_right_spec(int_decimal(p.number as int), 6) + " ["@ + pr_state_text(p.state) + "] "@
        + pad_right_spec(p.title@, 50) + " ("@ + p.source_branch@ + " -> "@ + p.target_branch@
        + ") @"@ + p.author@
}

impl TextView for PullRequest {
    open spec fn renderable(&self) -> bool {
        true
    }

    open spec fn text_spec(&self) -> Seq<char> {
        pull_request_text(*self)
    }

    fn to_text(&self) -> (r: String) {
        let mut s = String::from_str("#");
        let number = i64_to_decimal(self.number);
        let n = pad_right(number.as_str(), 6);
        push_str(&mut s, n.as_str());
        push_str(&mut s, " [");
        let st = self.state.to_text();
        push_str(&mut s, st.as_str());
        push_str(&mut s, "] ");
        let t = pad_right(self.title.as_str(), 50);
        push_str(&mut s, t.as_str());
        push_str(&mut s, " (");
        push_str(&mut s, self.source_branch.as_str());
        push_str(&mut s, " -> ");
        push_str(&mut s, self.target_branch.as_str());
        push_str(&mut s, ") @");
        push_str(&mut s, self.author.as_str());
        s
    }
}

/// The text form of a build result: `sn=<sn> success=<bool>`, with `-` for
/// a missing serial number and `false` for a missing success flag, then the
/// message where it holds more than whitespace.
pub open spec fn build_result_text(b: BuildResult) -> Seq<char> {
    let head = "sn="@ + or_default(b.sn, "-"@) + " success="@ + bool_text(
        match b.success {
            Some(x) => x,
            None => false,
        },
    );
    match b.message {
        Some(m) => if trim_spec(m@).len() > 0 {
            head + " "@ + m@
        } else {
            head
        },
        None => head,
    }
}

impl TextView for BuildResult {
    open spec fn renderable(&self) -> bool {
        true
    }

    open spec fn text_spec(&self) -> Seq<char> {
        build_result_text(*self)
    }

    fn to_text(&self) -> (r: String) {
        let mut s = String::from_str("sn=");
        push_str(&mut s, str_or(&self.sn, "-"));
        push_str(&mut s, " success=");
        let success = match self.success {
            Some(x) => x,
            None => false,
        };
        if success {
            push_str(&mut s, "true");
        } else {
            push_str(&mut s, "false");
        }
        if let Some(m) = &self.message {
            let t = trim(m.as_str());
            if t.unicode_len() != 0 {
                push_str(&mut s, " ");
                push_str(&mut s, m.as_str());
            }
        }
        s
    }
}

/// Whether the short form of a commit hash can be cut: the hash is at most 8
/// bytes long, or its 8th byte ends a character. (Its length in bytes fits
/// in `usize`, as that of any string in memory does.)
pub open spec fn short_sha_ok(sha: Seq<char>) -> bool {
    let bytes = encode_utf8(sha);
    &&& bytes.len() <= usize::MAX
    &&& bytes.len() <= 8 || is_char_boundary(bytes, 8)
}

/// The short form of a commit hash: its first 8 bytes.
pub open spec fn short_sha(sha: Seq<char>) -> Seq<char> {
    let bytes = encode_utf8(sha);
    if bytes.len() <= 8 {
        sha
    } else {
        decode_utf8(bytes.subrange(0, 8))
    }
}

/// The title shown for a build: its own title, else its commit's, else
/// nothing.
pub open spec fn log_title(l: LogInfo) -> Seq<char> {
    match l.title {
        Some(t) => t@,
        None => or_default(l.commit_title, ""@),
    }
}

/// The text form of a build: serial number in 18 columns, status in 10,
/// the short commit hash and the title; `-` stands for a missing serial
/// number, status or hash.
pub open spec fn log_info_text(l: LogInfo) -> Seq<char> {
    let sha = match l.sha {
        Some(s) => short_sha(s@),
        None => "-"@,
    };
    pad_right_spec(or_default(l.sn, "-"@), 18) + " ["@ + pad_right_spec(
        or_default(l.status, "-"@),
        10,
    ) + "] "@ + sha + " "@ + log_title(l)
}

/// The first 8 bytes of a commit hash, or all of it where it is shorter.
fn short_sha_of(sha: &str) -> (r: String)
    requires
        short_sha_ok(sha@),
    ensures
        r@ == short_sha(sha@),
{
    if sha.len() <= 8 {
        String::from_str(sha)
    } else {
        let (head, _) = sha.split_at(8);
        proof {
            vstd::utf8::encode_utf8_decode_utf8(head@);
        }
        String::from_str(head)
    }
}

impl TextView for LogInfo {
    open spec fn renderable(&self) -> bool {
        match self.sha {
            Some(s) => short_sha_ok(s@),
            None => true,
        }
    }

    open spec fn text_spec(&self) -> Seq<char> {
        log_info_text(*self)
    }

    fn to_text(&self) -> (r: String) {
        let mut s = pad_right(str_or(&self.sn, "-"), 18);
        push_str(&mut s, " [");
        let st = pad_right(str_or(&self.status, "-"), 10);
        push_str(&mut s, st.as_str());
        push_str(&mut s, "] ");
        match &self.sha {
            Some(sha) => {
                let short = short_sha_of(sha.as_str());
                push_str(&mut s, short.as_str());
            },
            None => push_str(&mut s, "-"),
        }
        push_str(&mut s, " ");
        match &self.title {
            Some(t) => push_str(&mut s, t.as_str()),
            None => push_str(&mut s, str_or(&self.commit_title, "")),
        }
        s
    }
}

impl TextView for BuildStatusResult {
    open spec fn renderable(&self) -> bool {
        true
    }

    open spec fn text_spec(&self) -> Seq<char> {
        or_default(self.status, "-"@)
    }

    fn to_text(&self) -> (r: String) {
        String::from_str(str_or(&self.status, "-"))
    }
}

} // verus!
