//! The requests of each API operation: method, path segments below the base
//! URL, query, body, how the response is read, and the action named in
//! error messages.
use vstd::prelude::*;
use crate::config::opt_view;
use crate::error::ClientError;
use crate::paths::{
    pagination_params, pagination_spec, params_view, repo_resource_segments, slug_parts,
    slug_segments, slug_segments_spec, strings_view, QueryParam,
};
use crate::text::{i64_to_decimal, int_decimal};

verus! {

/// The HTTP method of a request.
#[derive(Debug, Clone, Copy, PartialEq, Eq)]
pub enum Method {
    Get,
    Post,
    Put,
    Delete,
}

/// How the response of a request is read.
#[derive(Debug, Clone, Copy, PartialEq, Eq)]
pub enum ResponseKind {
    /// A JSON document, decoded into the operation's result.
    Json,
    /// Nothing beyond a success status.
    Empty,
    /// Text, no longer than the text limit.
    Text,
}

/// The JSON body of a request.
#[derive(Debug)]
pub enum RequestBody {
    Empty,
    CreateRepo { name: String, description: Option<String>, private: bool },
    CreateIssue { title: String, body: Option<String> },
    CreatePr {
        title: String,
        source_branch: String,
        target_branch: String,
        body: Option<String>,
    },
    StartBuild { branch: String, sha: Option<String> },
}

/// A request body, by the characters of its fields.
pub enum BodyView {
    Empty,
    CreateRepo { name: Seq<char>, description: Option<Seq<char>>, private: bool },
    CreateIssue { title: Seq<char>, body: Option<Seq<char>> },
    CreatePr {
        title: Seq<char>,
        source_branch: Seq<char>,
        target_branch: Seq<char>,
        body: Option<Seq<char>>,
    },
    StartBuild { branch: Seq<char>, sha: Option<Seq<char>> },
}

impl View for RequestBody {
    type V = BodyView;

    open spec fn view(&self) -> BodyView {
        match self {
            RequestBody::Empty => BodyView::Empty,
            RequestBody::CreateRepo { name, description, private } => BodyView::CreateRepo {
                name: name@,
                description: opt_view(*description),
                private: *private,
            },
            RequestBody::CreateIssue { title, body } => BodyView::CreateIssue {
                title: title@,
                body: opt_view(*body),
            },
            RequestBody::CreatePr { title, source_branch, target_branch, body } =>
                BodyView::CreatePr {
                title: title@,
                source_branch: source_branch@,
                target_branch: target_branch@,
                body: opt_view(*body),
            },
            RequestBody::StartBuild { branch, sha } => BodyView::StartBuild {
                branch: branch@,
                sha: opt_view(*sha),
            },
        }
    }
}

/// A request to the API, without the base URL.
#[derive(Debug)]
pub struct ApiRequest {
    pub method: Method,
    pub segments: Vec<String>,
    pub query: Vec<QueryParam>,
    pub body: RequestBody,
    pub response: ResponseKind,
    pub action: &'static str,
}

/// A request, by the characters of its parts.
#[verifier::ext_equal]
pub struct RequestView {
    pub method: Method,
    pub segments: Seq<Seq<char>>,
    pub query: Seq<(Seq<char>, u32)>,
    pub body: BodyView,
    pub response: ResponseKind,
    pub action: Seq<char>,
}

impl View for ApiRequest {
    type V = RequestView;

    open spec fn view(&self) -> RequestView {
        RequestView {
            method: self.method,
            segments: strings_view(self.segments@),
            query: params_view(self.query@),
            body: self.body@,
            response: self.response,
            action: self.action@,
        }
    }
}

/// The request view with no query and no body.
pub open spec fn plain_request(
    method: Method,
    segments: Seq<Seq<char>>,
    response: ResponseKind,
    action: Seq<char>,
) -> RequestView {
    RequestView { method, segments, query: Seq::empty(), body: BodyView::Empty, response, action }
}

/// The segments of a repository's resource: the repository's own, `-`,
/// then `tail`.
pub open spec fn repo_path(repo: Seq<char>, tail: Seq<Seq<char>>) -> Seq<Seq<char>> {
    slug_parts(repo).push("-"@) + tail
}

/// The view of an optional string slice, as an owned string would have it.
pub open spec fn opt_str(o: Option<&str>) -> Option<Seq<char>> {
    match o {
        Some(s) => Some(s@),
        None => None,
    }
}

fn to_owned_opt(o: Option<&str>) -> (r: Option<String>)
    ensures
        opt_view(r) == opt_str(o),
{
    match o {
        Some(s) => Some(String::from_str(s)),
        None => None,
    }
}

fn push_segment(v: &mut Vec<String>, s: &str)
    ensures
        strings_view(final(v)@) == strings_view(old(v)@).push(s@),
{
    let ghost before = v@;
    v.push(String::from_str(s));
    proof {
        assert(strings_view(v@) =~= strings_view(before).push(s@));
    }
}

fn segments_of(parts: &[&str]) -> (r: Vec<String>)
    ensures
        strings_view(r@) == parts@.map_values(|p: &str| p@),
{
    let mut v: Vec<String> = Vec::new();
    let mut i: usize = 0;
    while i < parts.len()
        invariant
            i <= parts@.len(),
            strings_view(v@) == parts@.take(i as int).map_values(|p: &str| p@),
        decreases parts@.len() - i,
    {
        push_segment(&mut v, parts[i]);
        assert(parts@.take(i + 1).map_values(|p: &str| p@) =~= parts@.take(i as int).map_values(
            |p: &str| p@,
        ).push(parts@[i as int]@));
        i = i + 1;
    }
    assert(parts@.take(parts@.len() as int) =~= parts@);
    v
}

/// The segments of a repository's resource below `repo`.
fn repo_resource_path(repo: &str, tail: &[&str]) -> (r: Result<Vec<String>, ClientError>)
    ensures
        match slug_segments_spec(repo@) {
            Ok(_) => r matches Ok(v) && strings_view(v@) == repo_path(
                repo@,
                tail@.map_values(|p: &str| p@),
            ),
            Err(_) => r matches Err(ClientError::InvalidSlug(s)) && s@ == repo@,
        },
{
    let mut segments = repo_resource_segments(repo)?;
    let ghost base = strings_view(segments@);
    let mut i: usize = 0;
    while i < tail.len()
        invariant
            i <= tail@.len(),
            strings_view(segments@) == base + tail@.take(i as int).map_values(|p: &str| p@),
        decreases tail@.len() - i,
    {
        push_segment(&mut segments, tail[i]);
        assert(tail@.take(i + 1).map_values(|p: &str| p@) =~= tail@.take(i as int).map_values(
            |p: &str| p@,
        ).push(tail@[i as int]@));
        assert(base + tail@.take(i + 1).map_values(|p: &str| p@) =~= (base + tail@.take(
            i as int,
        ).map_values(|p: &str| p@)).push(tail@[i as int]@));
        i = i + 1;
    }
    assert(tail@.take(tail@.len() as int) =~= tail@);
    Ok(segments)
}

/// The outcome that a request builder owes for a repository slug: the
/// request `view` where the slug names a repository, and an error naming
/// the slug where it does not.
pub open spec fn request_result(
    r: Result<ApiRequest, ClientError>,
    slug: Seq<char>,
    view: RequestView,
) -> bool {
    match slug_segments_spec(slug) {
        Ok(_) => r matches Ok(req) && req@ =~= view,
        Err(_) => r matches Err(ClientError::InvalidSlug(s)) && s@ == slug,
    }
}

/// The request for the current user.
pub open spec fn current_user_view() -> RequestView {
    plain_request(Method::Get, seq!["user"@], ResponseKind::Json, "get current user"@)
}

/// The request for one page of the repositories of a group, or of the
/// current user.
pub open spec fn list_repos_view(
    group: Option<Seq<char>>,
    page: Option<u32>,
    page_size: Option<u32>,
) -> RequestView {
    RequestView {
        method: Method::Get,
        segments: match group {
            Some(g) => seq!["groups"@, g, "repos"@],
            None => seq!["user"@, "repos"@],
        },
        query: pagination_spec(page, page_size),
        body: BodyView::Empty,
        response: ResponseKind::Json,
        action: "list repos"@,
    }
}

/// The request for a repository.
pub open spec fn get_repo_view(slug: Seq<char>) -> RequestView {
    plain_request(Method::Get, slug_parts(slug), ResponseKind::Json, "get repo"@)
}

/// The request that creates a repository in a group.
pub open spec fn create_repo_view(
    group: Seq<char>,
    name: Seq<char>,
    description: Option<Seq<char>>,
    private: bool,
) -> RequestView {
    RequestView {
        method: Method::Post,
        segments: seq!["groups"@, group, "repos"@],
        query: Seq::empty(),
        body: BodyView::CreateRepo { name, description, private },
        response: ResponseKind::Json,
        action: "create repo"@,
    }
}

/// The request that deletes a repository.
pub open spec fn delete_repo_view(slug: Seq<char>) -> RequestView {
    plain_request(Method::Delete, slug_parts(slug), ResponseKind::Empty, "delete repo"@)
}

/// A paginated list request below a repository.
pub open spec fn repo_list_view(
    repo: Seq<char>,
    tail: Seq<Seq<char>>,
    page: Option<u32>,
    page_size: Option<u32>,
    action: Seq<char>,
) -> RequestView {
    RequestView {
        method: Method::Get,
        segments: repo_path(repo, tail),
        query: pagination_spec(page, page_size),
        body: BodyView::Empty,
        response: ResponseKind::Json,
        action,
    }
}

/// The request for one page of a repository's issues.
pub open spec fn list_issues_view(repo: Seq<char>, page: Option<u32>, page_size: Option<u32>) -> RequestView {
    repo_list_view(repo, seq!["issues"@], page, page_size, "list issues"@)
}

/// The request for an issue.
pub open spec fn get_issue_view(repo: Seq<char>, number: i64) -> RequestView {
    plain_request(
        Method::Get,
        repo_path(repo, seq!["issues"@, int_decimal(number as int)]),
        ResponseKind::Json,
        "get issue"@,
    )
}

/// The request that creates an issue.
pub open spec fn create_issue_view(repo: Seq<char>, title: Seq<char>, body: Option<Seq<char>>) -> RequestView {
    RequestView {
        method: Method::Post,
        segments: repo_path(repo, seq!["issues"@]),
        query: Seq::empty(),
        body: BodyView::CreateIssue { title, body },
        response: ResponseKind::Json,
        action: "create issue"@,
    }
}

/// The request for one page of a repository's pull requests.
pub open spec fn list_prs_view(repo: Seq<char>, page: Option<u32>, page_size: Option<u32>) -> RequestView {
    repo_list_view(repo, seq!["pulls"@], page, page_size, "list pull requests"@)
}

/// The request for a pull request.
pub open spec fn get_pr_view(repo: Seq<char>, number: i64) -> RequestView {
    plain_request(
        Method::Get,
        repo_path(repo, seq!["pulls"@, int_decimal(number as int)]),
        ResponseKind::Json,
        "get pull request"@,
    )
}

/// The request that creates a pull request.
pub open spec fn create_pr_view(
    repo: Seq<char>,
    title: Seq<char>,
    source: Seq<char>,
    target: Seq<char>,
    body: Option<Seq<char>>,
) -> RequestView {
    RequestView {
        method: Method::Post,
        segments: repo_path(repo, seq!["pulls"@]),
        query: Seq::empty(),
        body: BodyView::CreatePr { title, source_branch: source, target_branch: target, body },
        response: ResponseKind::Json,
        action: "create pull request"@,
    }
}

/// The request that merges a pull request.
pub open spec fn merge_pr_view(repo: Seq<char>, number: i64) -> RequestView {
    plain_request(
        Method::Put,
        repo_path(repo, seq!["pulls"@, int_decimal(number as int), "merge"@]),
        ResponseKind::Json,
        "merge pull request"@,
    )
}

/// The request for one page of a repository's builds.
pub open spec fn list_builds_view(repo: Seq<char>, page: Option<u32>, page_size: Option<u32>) -> RequestView {
    repo_list_view(repo, seq!["build"@, "logs"@], page, page_size, "list builds"@)
}

/// The request for the status of a build.
pub open spec fn build_status_view(repo: Seq<char>, sn: Seq<char>) -> RequestView {
    plain_request(
        Method::Get,
        repo_path(repo, seq!["build"@, "status"@, sn]),
        ResponseKind::Json,
        "get build status"@,
    )
}

/// The request that starts a build.
pub open spec fn trigger_build_view(repo: Seq<char>, branch: Seq<char>, sha: Option<Seq<char>>) -> RequestView {
    RequestView {
        method: Method::Post,
        segments: repo_path(repo, seq!["build"@, "start"@]),
        query: Seq::empty(),
        body: BodyView::StartBuild { branch, sha },
        response: ResponseKind::Json,
        action: "trigger build"@,
    }
}

/// The request that stops a build.
pub open spec fn cancel_build_view(repo: Seq<char>, sn: Seq<char>) -> RequestView {
    plain_request(
        Method::Post,
        repo_path(repo, seq!["build"@, "stop"@, sn]),
        ResponseKind::Json,
        "cancel build"@,
    )
}

/// The request for the logs of a build.
pub open spec fn build_logs_view(repo: Seq<char>, sn: Seq<char>) -> RequestView {
    plain_request(
        Method::Get,
        repo_path(repo, seq!["build"@, "logs"@, sn]),
        ResponseKind::Text,
        "get build logs"@,
    )
}

impl ApiRequest {
    /// The same request, asking for page `page` of `page_size` items.
    pub fn set_page(&mut self, page: u32, page_size: u32)
        ensures
            final(self)@ =~= (RequestView {
                query: pagination_spec(Some(page), Some(page_size)),
                ..old(self)@
            }),
    {
        self.query = pagination_params(Some(page), Some(page_size));
    }
}

/// The current user.
pub fn get_current_user_request() -> (r: ApiRequest)
    ensures
        r@ =~= current_user_view(),
{
    let segments = segments_of(&["user"]);
    ApiRequest {
        method: Method::Get,
        segments,
        query: Vec::new(),
        body: RequestBody::Empty,
        response: ResponseKind::Json,
        action: "get current user",
    }
}

/// One page of the repositories of a group, or of the current user where no
/// group is given.
pub fn list_repos_request(group: Option<&str>, page: Option<u32>, page_size: Option<u32>) -> (r:
    ApiRequest)
    ensures
        r@ =~= list_repos_view(opt_str(group), page, page_size),
{
    let segments = match group {
        Some(g) => segments_of(&["groups", g, "repos"]),
        None => segments_of(&["user", "repos"]),
    };
    ApiRequest {
        method: Method::Get,
        segments,
        query: pagination_params(page, page_size),
        body: RequestBody::Empty,
        response: ResponseKind::Json,
        action: "list repos",
    }
}

/// A repository, by slug.
pub fn get_repo_request(slug: &str) -> (r: Result<ApiRequest, ClientError>)
    ensures
        request_result(r, slug@, get_repo_view(slug@)),
{
    let segments = slug_segments(slug)?;
    Ok(
        ApiRequest {
            method: Method::Get,
            segments,
            query: Vec::new(),
            body: RequestBody::Empty,
            response: ResponseKind::Json,
            action: "get repo",
        },
    )
}

/// A new repository in a group.
pub fn create_repo_request(
    group: &str,
    name: &str,
    description: Option<&str>,
    private: bool,
) -> (r: ApiRequest)
    ensures
        r@ =~= create_repo_view(group@, name@, opt_str(description), private),
{
    let segments = segments_of(&["groups", group, "repos"]);
    ApiRequest {
        method: Method::Post,
        segments,
        query: Vec::new(),
        body: RequestBody::CreateRepo {
            name: String::from_str(name),
            description: to_owned_opt(description),
            private,
        },
        response: ResponseKind::Json,
        action: "create repo",
    }
}

/// The removal of a repository, by slug.
pub fn delete_repo_request(slug: &str) -> (r: Result<ApiRequest, ClientError>)
    ensures
        request_result(r, slug@, delete_repo_view(slug@)),
{
    let segments = slug_segments(slug)?;
    Ok(
        ApiRequest {
            method: Method::Delete,
            segments,
            query: Vec::new(),
            body: RequestBody::Empty,
            response: ResponseKind::Empty,
            action: "delete repo",
        },
    )
}

/// One page of a repository's issues.
pub fn list_issues_request(repo: &str, page: Option<u32>, page_size: Option<u32>) -> (r: Result<
    ApiRequest,
    ClientError,
>)
    ensures
        request_result(r, repo@, list_issues_view(repo@, page, page_size)),
{
    let segments = repo_resource_path(repo, &["issues"])?;
    Ok(
        ApiRequest {
            method: Method::Get,
            segments,
            query: pagination_params(page, page_size),
            body: RequestBody::Empty,
            response: ResponseKind::Json,
            action: "list issues",
        },
    )
}

/// An issue, by number.
pub fn get_issue_request(repo: &str, number: i64) -> (r: Result<ApiRequest, ClientError>)
    ensures
        request_result(r, repo@, get_issue_view(repo@, number)),
{
    let n = i64_to_decimal(number);
    let segments = repo_resource_path(repo, &["issues", n.as_str()])?;
    Ok(
        ApiRequest {
            method: Method::Get,
            segments,
            query: Vec::new(),
            body: RequestBody::Empty,
            response: ResponseKind::Json,
            action: "get issue",
        },
    )
}

/// A new issue.
pub fn create_issue_request(repo: &str, title: &str, body: Option<&str>) -> (r: Result<
    ApiRequest,
    ClientError,
>)
    ensures
        request_result(r, repo@, create_issue_view(repo@, title@, opt_str(body))),
{
    let segments = repo_resource_path(repo, &["issues"])?;
    Ok(
        ApiRequest {
            method: Method::Post,
            segments,
            query: Vec::new(),
            body: RequestBody::CreateIssue { title: String::from_str(title), body: to_owned_opt(body) },
            response: ResponseKind::Json,
            action: "create issue",
        },
    )
}

/// One page of a repository's pull requests.
pub fn list_prs_request(repo: &str, page: Option<u32>, page_size: Option<u32>) -> (r: Result<
    ApiRequest,
    ClientError,
>)
    ensures
        request_result(r, repo@, list_prs_view(repo@, page, page_size)),
{
    let segments = repo_resource_path(repo, &["pulls"])?;
    Ok(
        ApiRequest {
            method: Method::Get,
            segments,
            query: pagination_params(page, page_size),
            body: RequestBody::Empty,
            response: ResponseKind::Json,
            action: "list pull requests",
        },
    )
}

/// A pull request, by number.
pub fn get_pr_request(repo: &str, number: i64) -> (r: Result<ApiRequest, ClientError>)
    ensures
        request_result(r, repo@, get_pr_view(repo@, number)),
{
    let n = i64_to_decimal(number);
    let segments = repo_resource_path(repo, &["pulls", n.as_str()])?;
    Ok(
        ApiRequest {
            method: Method::Get,
            segments,
            query: Vec::new(),
            body: RequestBody::Empty,
            response: ResponseKind::Json,
            action: "get pull request",
        },
    )
}

/// A new pull request from `source` into `target`.
pub fn create_pr_request(
    repo: &str,
    title: &str,
    source: &str,
    target: &str,
    body: Option<&str>,
) -> (r: Result<ApiRequest, ClientError>)
    ensures
        request_result(r, repo@, create_pr_view(repo@, title@, source@, target@, opt_str(body))),
{
    let segments = repo_resource_path(repo, &["pulls"])?;
    Ok(
        ApiRequest {
            method: Method::Post,
            segments,
            query: Vec::new(),
            body: RequestBody::CreatePr {
                title: String::from_str(title),
                source_branch: String::from_str(source),
                target_branch: String::from_str(target),
                body: to_owned_opt(body),
            },
            response: ResponseKind::Json,
            action: "create pull request",
        },
    )
}

/// The merge of a pull request, by number.
pub fn merge_pr_request(repo: &str, number: i64) -> (r: Result<ApiRequest, ClientError>)
    ensures
        request_result(r, repo@, merge_pr_view(repo@, number)),
{
    let n = i64_to_decimal(number);
    let segments = repo_resource_path(repo, &["pulls", n.as_str(), "merge"])?;
    Ok(
        ApiRequest {
            method: Method::Put,
            segments,
            query: Vec::new(),
            body: RequestBody::Empty,
            response: ResponseKind::Json,
            action: "merge pull request",
        },
    )
}

/// One page of a repository's pipeline builds.
pub fn list_builds_request(repo: &str, page: Option<u32>, page_size: Option<u32>) -> (r: Result<
    ApiRequest,
    ClientError,
>)
    ensures
        request_result(r, repo@, list_builds_view(repo@, page, page_size)),
{
    let segments = repo_resource_path(repo, &["build", "logs"])?;
    Ok(
        ApiRequest {
            method: Method::Get,
            segments,
            query: pagination_params(page, page_size),
            body: RequestBody::Empty,
            response: ResponseKind::Json,
            action: "list builds",
        },
    )
}

/// The status of a build, by serial number.
pub fn get_build_status_request(repo: &str, sn: &str) -> (r: Result<ApiRequest, ClientError>)
    ensures
        request_result(r, repo@, build_status_view(repo@, sn@)),
{
    let segments = repo_resource_path(repo, &["build", "status", sn])?;
    Ok(
        ApiRequest {
            method: Method::Get,
            segments,
            query: Vec::new(),
            body: RequestBody::Empty,
            response: ResponseKind::Json,
            action: "get build status",
        },
    )
}

/// The start of a build of `branch`, at commit `sha` where one is given.
pub fn trigger_build_request(repo: &str, branch: &str, sha: Option<&str>) -> (r: Result<
    ApiRequest,
    ClientError,
>)
    ensures
        request_result(r, repo@, trigger_build_view(repo@, branch@, opt_str(sha))),
{
    let segments = repo_resource_path(repo, &["build", "start"])?;
    Ok(
        ApiRequest {
            method: Method::Post,
            segments,
            query: Vec::new(),
            body: RequestBody::StartBuild { branch: String::from_str(branch), sha: to_owned_opt(sha) },
            response: ResponseKind::Json,
            action: "trigger build",
        },
    )
}

/// The stop of a build, by serial number.
pub fn cancel_build_request(repo: &str, sn: &str) -> (r: Result<ApiRequest, ClientError>)
    ensures
        request_result(r, repo@, cancel_build_view(repo@, sn@)),
{
    let segments = repo_resource_path(repo, &["build", "stop", sn])?;
    Ok(
        ApiRequest {
            method: Method::Post,
            segments,
            query: Vec::new(),
            body: RequestBody::Empty,
            response: ResponseKind::Json,
            action: "cancel build",
        },
    )
}

/// The logs of a build, by serial number.
pub fn get_build_logs_request(repo: &str, sn: &str) -> (r: Result<ApiRequest, ClientError>)
    ensures
        request_result(r, repo@, build_logs_view(repo@, sn@)),
{
    let segments = repo_resource_path(repo, &["build", "logs", sn])?;
    Ok(
        ApiRequest {
            method: Method::Get,
            segments,
            query: Vec::new(),
            body: RequestBody::Empty,
            response: ResponseKind::Text,
            action: "get build logs",
        },
    )
}

} // verus!
