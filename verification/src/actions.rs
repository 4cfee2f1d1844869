//! The commands of the command line and what each of them does besides
//! its request: whether it fetches every page, whether it asks for
//! confirmation first, and how its result is shown.
use vstd::prelude::*;
use crate::api::{
    build_logs_view, build_status_view, cancel_build_request, cancel_build_view,
    create_issue_request, create_issue_view, create_pr_request, create_pr_view,
    create_repo_request, create_repo_view, current_user_view, delete_repo_request,
    delete_repo_view, get_build_logs_request, get_build_status_request, get_current_user_request,
    get_issue_request, get_issue_view, get_pr_request, get_pr_view, get_repo_request,
    get_repo_view, list_builds_request, list_builds_view, list_issues_request, list_issues_view,
    list_prs_request, list_prs_view, list_repos_request, list_repos_view, merge_pr_request,
    merge_pr_view, opt_str, request_result, trigger_build_request, trigger_build_view, ApiRequest,
};
use crate::config::opt_view;
use crate::error::ClientError;
use crate::pagination::{DEFAULT_LIST_PAGE_SIZE, DEFAULT_REPO_PAGE_SIZE};
use crate::text::{trim, trim_spec};

verus! {

/// Commands on the current user.
#[derive(Debug)]
pub enum UserAction {
    /// Get current user info.
    Info,
}

/// Commands on repositories.
#[derive(Debug)]
pub enum RepoAction {
    /// List repositories.
    List { group: Option<String>, page: Option<u32>, page_size: Option<u32>, all: bool },
    /// Get repository details.
    Get { slug: String },
    /// Create a new repository.
    Create { group: String, name: String, description: Option<String>, private: bool },
    /// Delete a repository.
    Delete { slug: String, force: bool },
}

/// Commands on issues.
#[derive(Debug)]
pub enum IssueAction {
    /// List issues in a repository.
    List { repo: String, page: Option<u32>, page_size: Option<u32>, all: bool },
    /// Get a specific issue.
    Get { repo: String, number: i64 },
    /// Create a new issue.
    Create { repo: String, title: String, body: Option<String> },
}

/// Commands on pull requests.
#[derive(Debug)]
pub enum PrAction {
    /// List pull requests in a repository.
    List { repo: String, page: Option<u32>, page_size: Option<u32>, all: bool },
    /// Get a specific pull request.
    Get { repo: String, number: i64 },
    /// Create a new pull request.
    Create {
        repo: String,
        title: String,
        source: String,
        target: String,
        body: Option<String>,
    },
    /// Merge a pull request.
    Merge { repo: String, number: i64 },
}

/// Commands on pipeline builds.
#[derive(Debug)]
pub enum BuildAction {
    /// List builds in a repository.
    List { repo: String, page: Option<u32>, page_size: Option<u32>, all: bool },
    /// Get a specific build.
    Get { repo: String, sn: String },
    /// Trigger a new build.
    Trigger { repo: String, branch: String, commit: Option<String> },
    /// Cancel a running build.
    Cancel { repo: String, sn: String },
    /// Get build logs.
    Logs { repo: String, sn: String },
}

/// The label under which a made or changed value is shown.
#[derive(Debug, Clone, Copy, PartialEq, Eq)]
pub enum Label {
    Created,
    Merged,
    Triggered,
    Cancelled,
}

/// The word of a label.
pub open spec fn label_text(l: Label) -> Seq<char> {
    match l {
        Label::Created => "Created"@,
        Label::Merged => "Merged"@,
        Label::Triggered => "Triggered"@,
        Label::Cancelled => "Cancelled"@,
    }
}

impl Label {
    /// The word of this label.
    pub fn text(&self) -> (r: &'static str)
        ensures
            r@ == label_text(*self),
    {
        match self {
            Label::Created => "Created",
            Label::Merged => "Merged",
            Label::Triggered => "Triggered",
            Label::Cancelled => "Cancelled",
        }
    }
}

/// How the result of a command is shown.
#[derive(Debug, Clone, Copy, PartialEq, Eq)]
pub enum Output {
    /// One value.
    One,
    /// A list of values.
    List,
    /// A value that the command made or changed, under a label.
    Created(Label),
    /// The slug of a deleted repository.
    Deleted,
    /// Build logs.
    Logs,
}

/// What a command does besides sending its request: whether it fetches
/// every page (and with which default page size), whether it asks for
/// confirmation first, and how its result is shown.
#[derive(Debug, Clone, Copy, PartialEq, Eq)]
pub struct Plan {
    pub collect_all: Option<u32>,
    pub confirm: bool,
    pub output: Output,
}

/// The default page size where `all` asks for every page.
pub open spec fn collect_if(all: bool, default_page_size: u32) -> Option<u32> {
    if all {
        Some(default_page_size)
    } else {
        None
    }
}

/// The plan of a command that fetches one value and shows it.
pub open spec fn show_one() -> Plan {
    Plan { collect_all: None, confirm: false, output: Output::One }
}

/// The plan of a command that lists values, fetching every page when `all`.
pub open spec fn show_list(all: bool, default_page_size: u32) -> Plan {
    Plan { collect_all: collect_if(all, default_page_size), confirm: false, output: Output::List }
}

/// The plan of a command that makes or changes a value and shows it under
/// `label`.
pub open spec fn show_created(label: Label) -> Plan {
    Plan { collect_all: None, confirm: false, output: Output::Created(label) }
}

fn one() -> (r: Plan)
    ensures
        r == show_one(),
{
    Plan { collect_all: None, confirm: false, output: Output::One }
}

fn list(all: bool, default_page_size: u32) -> (r: Plan)
    ensures
        r == show_list(all, default_page_size),
{
    let collect_all = if all {
        Some(default_page_size)
    } else {
        None
    };
    Plan { collect_all, confirm: false, output: Output::List }
}

fn created(label: Label) -> (r: Plan)
    ensures
        r == show_created(label),
{
    Plan { collect_all: None, confirm: false, output: Output::Created(label) }
}

impl UserAction {
    /// What the command does.
    pub fn plan(&self) -> (r: Plan)
        ensures
            r == show_one(),
    {
        one()
    }
}

impl RepoAction {
    /// What the command does: repository lists page by `DEFAULT_REPO_PAGE_SIZE`,
    /// and a deletion asks first unless forced.
    pub fn plan(&self) -> (r: Plan)
        ensures
            r == match self {
                RepoAction::List { all, .. } => show_list(*all, DEFAULT_REPO_PAGE_SIZE),
                RepoAction::Get { .. } => show_one(),
                RepoAction::Create { .. } => show_created(Label::Created),
                RepoAction::Delete { force, .. } => Plan {
                    collect_all: None,
                    confirm: !*force,
                    output: Output::Deleted,
                },
            },
    {
        match self {
            RepoAction::List { all, .. } => list(*all, DEFAULT_REPO_PAGE_SIZE),
            RepoAction::Get { .. } => one(),
            RepoAction::Create { .. } => created(Label::Created),
            RepoAction::Delete { force, .. } => Plan {
                collect_all: None,
                confirm: !*force,
                output: Output::Deleted,
            },
        }
    }
}

impl IssueAction {
    /// What the command does.
    pub fn plan(&self) -> (r: Plan)
        ensures
            r == match self {
                IssueAction::List { all, .. } => show_list(*all, DEFAULT_LIST_PAGE_SIZE),
                IssueAction::Get { .. } => show_one(),
                IssueAction::Create { .. } => show_created(Label::Created),
            },
    {
        match self {
            IssueAction::List { all, .. } => list(*all, DEFAULT_LIST_PAGE_SIZE),
            IssueAction::Get { .. } => one(),
            IssueAction::Create { .. } => created(Label::Created),
        }
    }
}

impl PrAction {
    /// What the command does.
    pub fn plan(&self) -> (r: Plan)
        ensures
            r == match self {
                PrAction::List { all, .. } => show_list(*all, DEFAULT_LIST_PAGE_SIZE),
                PrAction::Get { .. } => show_one(),
                PrAction::Create { .. } => show_created(Label::Created),
                PrAction::Merge { .. } => show_created(Label::Merged),
            },
    {
        match self {
            PrAction::List { all, .. } => list(*all, DEFAULT_LIST_PAGE_SIZE),
            PrAction::Get { .. } => one(),
            PrAction::Create { .. } => created(Label::Created),
            PrAction::Merge { .. } => created(Label::Merged),
        }
    }
}

impl BuildAction {
    /// What the command does.
    pub fn plan(&self) -> (r: Plan)
        ensures
            r == match self {
                BuildAction::List { all, .. } => show_list(*all, DEFAULT_LIST_PAGE_SIZE),
                BuildAction::Get { .. } => show_one(),
                BuildAction::Trigger { .. } => show_created(Label::Triggered),
                BuildAction::Cancel { .. } => show_created(Label::Cancelled),
                BuildAction::Logs { .. } => Plan {
                    collect_all: None,
                    confirm: false,
                    output: Output::Logs,
                },
            },
    {
        match self {
            BuildAction::List { all, .. } => list(*all, DEFAULT_LIST_PAGE_SIZE),
            BuildAction::Get { .. } => one(),
            BuildAction::Trigger { .. } => created(Label::Triggered),
            BuildAction::Cancel { .. } => created(Label::Cancelled),
            BuildAction::Logs { .. } => Plan { collect_all: None, confirm: false, output: Output::Logs },
        }
    }
}

fn opt_as_str(o: &Option<String>) -> (r: Option<&str>)
    ensures
        opt_str(r) == opt_view(*o),
{
    match o {
        Some(s) => Some(s.as_str()),
        None => None,
    }
}

impl UserAction {
    /// The request the command sends.
    pub fn request(&self) -> (r: ApiRequest)
        ensures
            r@ =~= current_user_view(),
    {
        get_current_user_request()
    }
}

impl RepoAction {
    /// The request the command sends; a list command's request asks for the
    /// given page.
    pub fn request(&self) -> (r: Result<ApiRequest, ClientError>)
        ensures
            match self {
                RepoAction::List { group, page, page_size, .. } => r matches Ok(req) && req@
                    =~= list_repos_view(opt_view(*group), *page, *page_size),
                RepoAction::Get { slug } => request_result(r, slug@, get_repo_view(slug@)),
                RepoAction::Create { group, name, description, private } => r matches Ok(req)
                    && req@ =~= create_repo_view(group@, name@, opt_view(*description), *private),
                RepoAction::Delete { slug, .. } => request_result(
                    r,
                    slug@,
                    delete_repo_view(slug@),
                ),
            },
    {
        match self {
            RepoAction::List { group, page, page_size, .. } => Ok(
                list_repos_request(opt_as_str(group), *page, *page_size),
            ),
            RepoAction::Get { slug } => get_repo_request(slug.as_str()),
            RepoAction::Create { group, name, description, private } => Ok(
                create_repo_request(group.as_str(), name.as_str(), opt_as_str(description), *private),
            ),
            RepoAction::Delete { slug, .. } => delete_repo_request(slug.as_str()),
        }
    }
}

impl IssueAction {
    /// The request the command sends; a list command's request asks for the
    /// given page.
    pub fn request(&self) -> (r: Result<ApiRequest, ClientError>)
        ensures
            match self {
                IssueAction::List { repo, page, page_size, .. } => request_result(
                    r,
                    repo@,
                    list_issues_view(repo@, *page, *page_size),
                ),
                IssueAction::Get { repo, number } => request_result(
                    r,
                    repo@,
                    get_issue_view(repo@, *number),
                ),
                IssueAction::Create { repo, title, body } => request_result(
                    r,
                    repo@,
                    create_issue_view(repo@, title@, opt_view(*body)),
                ),
            },
    {
        match self {
            IssueAction::List { repo, page, page_size, .. } => list_issues_request(
                repo.as_str(),
                *page,
                *page_size,
            ),
            IssueAction::Get { repo, number } => get_issue_request(repo.as_str(), *number),
            IssueAction::Create { repo, title, body } => create_issue_request(
                repo.as_str(),
                title.as_str(),
                opt_as_str(body),
            ),
        }
    }
}

impl PrAction {
    /// The request the command sends; a list command's request asks for the
    /// given page.
    pub fn request(&self) -> (r: Result<ApiRequest, ClientError>)
        ensures
            match self {
                PrAction::List { repo, page, page_size, .. } => request_result(
                    r,
                    repo@,
                    list_prs_view(repo@, *page, *page_size),
                ),
                PrAction::Get { repo, number } => request_result(
                    r,
                    repo@,
                    get_pr_view(repo@, *number),
                ),
                PrAction::Create { repo, title, source, target, body } => request_result(
                    r,
                    repo@,
                    create_pr_view(repo@, title@, source@, target@, opt_view(*body)),
                ),
                PrAction::Merge { repo, number } => request_result(
                    r,
                    repo@,
                    merge_pr_view(repo@, *number),
                ),
            },
    {
        match self {
            PrAction::List { repo, page, page_size, .. } => list_prs_request(
                repo.as_str(),
                *page,
                *page_size,
            ),
            PrAction::Get { repo, number } => get_pr_request(repo.as_str(), *number),
            PrAction::Create { repo, title, source, target, body } => create_pr_request(
                repo.as_str(),
                title.as_str(),
                source.as_str(),
                target.as_str(),
                opt_as_str(body),
            ),
            PrAction::Merge { repo, number } => merge_pr_request(repo.as_str(), *number),
        }
    }
}

impl BuildAction {
    /// The request the command sends; a list command's request asks for the
    /// given page.
    pub fn request(&self) -> (r: Result<ApiRequest, ClientError>)
        ensures
            match self {
                BuildAction::List { repo, page, page_size, .. } => request_result(
                    r,
                    repo@,
                    list_builds_view(repo@, *page, *page_size),
                ),
                BuildAction::Get { repo, sn } => request_result(
                    r,
                    repo@,
                    build_status_view(repo@, sn@),
                ),
                BuildAction::Trigger { repo, branch, commit } => request_result(
                    r,
                    repo@,
                    trigger_build_view(repo@, branch@, opt_view(*commit)),
                ),
                BuildAction::Cancel { repo, sn } => request_result(
                    r,
                    repo@,
                    cancel_build_view(repo@, sn@),
                ),
                BuildAction::Logs { repo, sn } => request_result(
                    r,
                    repo@,
                    build_logs_view(repo@, sn@),
                ),
            },
    {
        match self {
            BuildAction::List { repo, page, page_size, .. } => list_builds_request(
                repo.as_str(),
                *page,
                *page_size,
            ),
            BuildAction::Get { repo, sn } => get_build_status_request(repo.as_str(), sn.as_str()),
            BuildAction::Trigger { repo, branch, commit } => trigger_build_request(
                repo.as_str(),
                branch.as_str(),
                opt_as_str(commit),
            ),
            BuildAction::Cancel { repo, sn } => cancel_build_request(repo.as_str(), sn.as_str()),
            BuildAction::Logs { repo, sn } => get_build_logs_request(repo.as_str(), sn.as_str()),
        }
    }
}

/// Whether an answer to the deletion prompt confirms it: `y` or `Y`, with
/// surrounding whitespace ignored.
pub open spec fn confirms_spec(input: Seq<char>) -> bool {
    trim_spec(input) == seq!['y'] || trim_spec(input) == seq!['Y']
}

/// Whether the answer `input` to the deletion prompt confirms the deletion.
pub fn confirms_deletion(input: &str) -> (r: bool)
    ensures
        r == confirms_spec(input@),
{
    let t = trim(input);
    let s = t.as_str();
    if s.unicode_len() != 1 {
        proof {
            assert(trim_spec(input@).len() != 1);
        }
        return false;
    }
    let c = s.get_char(0);
    proof {
        if c == 'y' {
            assert(trim_spec(input@) =~= seq!['y']);
        }
        if c == 'Y' {
            assert(trim_spec(input@) =~= seq!['Y']);
        }
    }
    c == 'y' || c == 'Y'
}

} // verus!
