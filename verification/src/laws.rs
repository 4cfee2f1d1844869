//! Laws of the library's operations, stated over all inputs: what the
//! requests carry, how log lines are joined, and how results read as text.
use vstd::prelude::*;
use crate::api::{
    build_logs_view, cancel_build_view, create_issue_view, create_pr_view, create_repo_view,
    get_issue_view, get_pr_view, list_builds_view, list_issues_view, list_prs_view,
    list_repos_view, merge_pr_view, trigger_build_view, BodyView, Method,
};
use crate::model::{
    build_result_text, issue_text, pull_request_text, user_text, Issue, PullRequest, User,
    BuildResult,
};
use crate::paths::slug_parts;
use crate::text::{
    digit_char, int_decimal, is_white_space, join_spec, lemma_trim_end_shape,
    lemma_trim_start_shape, nat_decimal, pad_right_spec, trim_end_spec, trim_spec,
    trim_start_spec,
};
use crate::api::{build_status_view, ResponseKind};

verus! {

/// Whether `q` is the query that asks for the given page: one `("page", p)`
/// entry exactly when a page `p` is given, one `("page_size", s)` entry
/// exactly when a page size `s` is given, the page first, nothing else.
pub open spec fn asks_for_page(q: Seq<(Seq<char>, u32)>, page: Option<u32>, page_size: Option<u32>) -> bool {
    &&& q.len() == (if page is Some { 1int } else { 0int }) + (if page_size is Some {
        1int
    } else {
        0int
    })
    &&& page matches Some(p) ==> q[0] == ("page"@, p)
    &&& page_size matches Some(s) ==> q[q.len() - 1] == ("page_size"@, s)
}

/// Every list request asks for exactly the page and page size given: the
/// repository, issue, pull-request and build lists alike, and each is a GET.
pub proof fn law_list_requests_ask_for_the_given_page(
    group: Option<Seq<char>>,
    repo: Seq<char>,
    page: Option<u32>,
    page_size: Option<u32>,
)
    ensures
        asks_for_page(list_repos_view(group, page, page_size).query, page, page_size),
        asks_for_page(list_issues_view(repo, page, page_size).query, page, page_size),
        asks_for_page(list_prs_view(repo, page, page_size).query, page, page_size),
        asks_for_page(list_builds_view(repo, page, page_size).query, page, page_size),
        list_repos_view(group, page, page_size).method == Method::Get,
        list_issues_view(repo, page, page_size).method == Method::Get,
        list_prs_view(repo, page, page_size).method == Method::Get,
        list_builds_view(repo, page, page_size).method == Method::Get,
{
}

/// The list requests of a repository go to the repository's path, `-`, then
/// the resource: `issues`, `pulls`, or `build/logs`.
pub proof fn law_list_requests_go_below_the_repository(
    repo: Seq<char>,
    page: Option<u32>,
    page_size: Option<u32>,
)
    ensures
        list_issues_view(repo, page, page_size).segments == slug_parts(repo) + seq![
            "-"@,
            "issues"@,
        ],
        list_prs_view(repo, page, page_size).segments == slug_parts(repo) + seq![
            "-"@,
            "pulls"@,
        ],
        list_builds_view(repo, page, page_size).segments == slug_parts(repo) + seq![
            "-"@,
            "build"@,
            "logs"@,
        ],
{
    assert(slug_parts(repo).push("-"@) + seq!["issues"@] =~= slug_parts(repo) + seq![
        "-"@,
        "issues"@,
    ]);
    assert(slug_parts(repo).push("-"@) + seq!["pulls"@] =~= slug_parts(repo) + seq![
        "-"@,
        "pulls"@,
    ]);
    assert(slug_parts(repo).push("-"@) + seq!["build"@, "logs"@] =~= slug_parts(repo) + seq![
        "-"@,
        "build"@,
        "logs"@,
    ]);
}

/// A request that names one item (an issue, a pull request, a build's
/// logs) or acts on it asks for no page.
pub proof fn law_item_requests_carry_no_query(repo: Seq<char>, number: i64, sn: Seq<char>)
    ensures
        get_issue_view(repo, number).query.len() == 0,
        get_pr_view(repo, number).query.len() == 0,
        merge_pr_view(repo, number).query.len() == 0,
        cancel_build_view(repo, sn).query.len() == 0,
        build_logs_view(repo, sn).query.len() == 0,
{
}

/// A request that creates something is a POST whose body carries exactly
/// the values given: the repository's name, description and private flag;
/// the issue's title and body; the pull request's title, branches and body;
/// the build's branch and commit.
pub proof fn law_create_requests_carry_their_arguments(
    repo: Seq<char>,
    group: Seq<char>,
    name: Seq<char>,
    description: Option<Seq<char>>,
    private: bool,
    title: Seq<char>,
    body: Option<Seq<char>>,
    source: Seq<char>,
    target: Seq<char>,
    branch: Seq<char>,
    sha: Option<Seq<char>>,
)
    ensures
        create_repo_view(group, name, description, private).method == Method::Post,
        create_repo_view(group, name, description, private).segments == seq![
            "groups"@,
            group,
            "repos"@,
        ],
        create_repo_view(group, name, description, private).body matches BodyView::CreateRepo {
            name: n,
            description: d,
            private: p,
        } && n == name && d == description && p == private,
        create_issue_view(repo, title, body).method == Method::Post,
        create_issue_view(repo, title, body).body matches BodyView::CreateIssue {
            title: t,
            body: b,
        } && t == title && b == body,
        create_pr_view(repo, title, source, target, body).method == Method::Post,
        create_pr_view(repo, title, source, target, body).body matches BodyView::CreatePr {
            title: t,
            source_branch: s,
            target_branch: g,
            body: b,
        } && t == title && s == source && g == target && b == body,
        trigger_build_view(repo, branch, sha).method == Method::Post,
        trigger_build_view(repo, branch, sha).body matches BodyView::StartBuild {
            branch: b,
            sha: c,
        } && b == branch && c == sha,
{
}

/// Joining one more line onto a non-empty list of lines adds the separator
/// and then that line, whatever it holds (an empty line too).
pub proof fn law_join_appends_each_line(lines: Seq<Seq<char>>, line: Seq<char>, sep: Seq<char>)
    requires
        lines.len() > 0,
    ensures
        join_spec(lines.push(line), sep) == join_spec(lines, sep) + sep + line,
{
    assert(lines.push(line).drop_last() =~= lines);
}

/// The total number of characters in `lines`.
pub open spec fn total_len(lines: Seq<Seq<char>>) -> nat
    decreases lines.len(),
{
    if lines.len() == 0 {
        0
    } else {
        total_len(lines.drop_last()) + lines.last().len()
    }
}

/// Joining `n` lines keeps all of their characters and puts `n - 1`
/// separators between them: nothing is dropped, an empty line included.
pub proof fn law_join_keeps_every_line(lines: Seq<Seq<char>>, sep: Seq<char>)
    requires
        lines.len() > 0,
    ensures
        join_spec(lines, sep).len() == total_len(lines) + (lines.len() - 1) * sep.len(),
        lines[0].len() <= join_spec(lines, sep).len(),
        join_spec(lines, sep).subrange(0, lines[0].len() as int) == lines[0],
    decreases lines.len(),
{
    if lines.len() == 1 {
        assert(lines.drop_last().len() == 0);
        assert(total_len(lines.drop_last()) == 0);
        assert(total_len(lines) == lines[0].len());
        assert(join_spec(lines, sep) == lines[0]);
        let z = (lines.len() - 1) as int;
        let s = sep.len() as int;
        assert(z * s == 0) by (nonlinear_arith)
            requires
                z == 0,
        ;
        assert(lines[0].subrange(0, lines[0].len() as int) =~= lines[0]);
    } else {
        let rest = lines.drop_last();
        law_join_keeps_every_line(rest, sep);
        let n = lines.len() as int;
        let s = sep.len() as int;
        assert((n - 2) * s + s == (n - 1) * s) by (nonlinear_arith);
        assert(rest.len() - 1 == n - 2);
        let j = join_spec(rest, sep);
        assert(join_spec(lines, sep) == j + sep + lines.last());
        assert(total_len(lines) == total_len(rest) + lines.last().len());
        assert(j.len() == total_len(rest) + (n - 2) * s);
        assert(rest[0] == lines[0]);
        assert(rest[0].len() <= j.len());
        assert((j + sep + lines.last()).subrange(0, lines[0].len() as int) =~= j.subrange(
            0,
            lines[0].len() as int,
        ));
    }
}

/// The text of a user begins with the user's name.
pub proof fn law_user_text_begins_with_username(u: User)
    ensures
        user_text(u).len() >= u.username@.len(),
        user_text(u).subrange(0, u.username@.len() as int) == u.username@,
{
    let t = user_text(u);
    let rest = t.subrange(u.username@.len() as int, t.len() as int);
    assert(t.subrange(0, u.username@.len() as int) =~= u.username@);
}

/// The text of an issue begins with `#` and ends with ` @` and the author's
/// user name, whatever the author's nickname or email.
pub proof fn law_issue_text_names_the_author(i: Issue)
    ensures
        ({
            let t = issue_text(i);
            let tail = " @"@ + i.author.username@;
            &&& t.len() >= tail.len()
            &&& t.subrange(t.len() - tail.len(), t.len() as int) == tail
            &&& t[0] == '#'
        }),
{
    reveal_strlit("#");
    let t = issue_text(i);
    let tail = " @"@ + i.author.username@;
    let head = t.subrange(0, t.len() - tail.len());
    assert(t.subrange(t.len() - tail.len(), t.len() as int) =~= tail);
}

/// The text of a pull request begins with `#` and ends with `) @` and the
/// author.
pub proof fn law_pull_request_text_names_the_author(p: PullRequest)
    ensures
        ({
            let t = pull_request_text(p);
            let tail = ") @"@ + p.author@;
            &&& t.len() >= tail.len()
            &&& t.subrange(t.len() - tail.len(), t.len() as int) == tail
            &&& t[0] == '#'
        }),
{
    reveal_strlit("#");
    let t = pull_request_text(p);
    let tail = ") @"@ + p.author@;
    assert(t.subrange(t.len() - tail.len(), t.len() as int) =~= tail);
}

/// The text of a build result begins with `sn=`.
pub proof fn law_build_result_text_begins_with_sn(b: BuildResult)
    ensures
        build_result_text(b).len() >= 3,
        build_result_text(b).subrange(0, 3) == "sn="@,
{
    reveal_strlit("sn=");
    assert(build_result_text(b).subrange(0, 3) =~= "sn="@);
}

/// A request for one item goes to the repository's path, `-`, the
/// resource, and the item's number (in decimal) or serial number; merging
/// is a PUT, stopping a build a POST, reading a GET, and logs come back as
/// text.
pub proof fn law_item_requests_go_to_the_item(repo: Seq<char>, number: i64, sn: Seq<char>)
    ensures
        get_issue_view(repo, number).segments == slug_parts(repo) + seq![
            "-"@,
            "issues"@,
            int_decimal(number as int),
        ],
        get_pr_view(repo, number).segments == slug_parts(repo) + seq![
            "-"@,
            "pulls"@,
            int_decimal(number as int),
        ],
        merge_pr_view(repo, number).segments == slug_parts(repo) + seq![
            "-"@,
            "pulls"@,
            int_decimal(number as int),
            "merge"@,
        ],
        build_status_view(repo, sn).segments == slug_parts(repo) + seq![
            "-"@,
            "build"@,
            "status"@,
            sn,
        ],
        cancel_build_view(repo, sn).segments == slug_parts(repo) + seq![
            "-"@,
            "build"@,
            "stop"@,
            sn,
        ],
        build_logs_view(repo, sn).segments == slug_parts(repo) + seq![
            "-"@,
            "build"@,
            "logs"@,
            sn,
        ],
        get_issue_view(repo, number).method == Method::Get,
        get_pr_view(repo, number).method == Method::Get,
        merge_pr_view(repo, number).method == Method::Put,
        cancel_build_view(repo, sn).method == Method::Post,
        build_status_view(repo, sn).method == Method::Get,
        build_logs_view(repo, sn).method == Method::Get,
        build_logs_view(repo, sn).response == ResponseKind::Text,
{
    let p = slug_parts(repo).push("-"@);
    let d = int_decimal(number as int);
    assert(p + seq!["issues"@, d] =~= slug_parts(repo) + seq!["-"@, "issues"@, d]);
    assert(p + seq!["pulls"@, d] =~= slug_parts(repo) + seq!["-"@, "pulls"@, d]);
    assert(p + seq!["pulls"@, d, "merge"@] =~= slug_parts(repo) + seq![
        "-"@,
        "pulls"@,
        d,
        "merge"@,
    ]);
    assert(p + seq!["build"@, "status"@, sn] =~= slug_parts(repo) + seq![
        "-"@,
        "build"@,
        "status"@,
        sn,
    ]);
    assert(p + seq!["build"@, "stop"@, sn] =~= slug_parts(repo) + seq![
        "-"@,
        "build"@,
        "stop"@,
        sn,
    ]);
    assert(p + seq!["build"@, "logs"@, sn] =~= slug_parts(repo) + seq![
        "-"@,
        "build"@,
        "logs"@,
        sn,
    ]);
}

/// The number that decimal digits stand for.
pub open spec fn digits_value(s: Seq<char>) -> int
    decreases s.len(),
{
    if s.len() == 0 {
        0
    } else {
        digits_value(s.drop_last()) * 10 + digit_of(s.last())
    }
}

/// The value of one decimal digit character.
pub open spec fn digit_of(c: char) -> int {
    (c as u32) - ('0' as u32)
}

/// The decimal rendering of a number reads back as that number, with a `-`
/// in front exactly when it is negative, and has no leading zero.
pub proof fn law_decimal_reads_back(n: int)
    ensures
        int_decimal(n).len() > 0,
        n < 0 ==> int_decimal(n)[0] == '-' && digits_value(int_decimal(n).drop_first()) == -n,
        n >= 0 ==> digits_value(int_decimal(n)) == n,
        n >= 0 ==> (int_decimal(n)[0] == '0' ==> n == 0),
{
    if n < 0 {
        lemma_nat_decimal_value((-n) as nat);
        assert((seq!['-'] + nat_decimal((-n) as nat)).drop_first() =~= nat_decimal((-n) as nat));
    } else {
        lemma_nat_decimal_value(n as nat);
    }
}

proof fn lemma_nat_decimal_value(n: nat)
    ensures
        nat_decimal(n).len() > 0,
        digits_value(nat_decimal(n)) == n,
        nat_decimal(n)[0] == '0' ==> n == 0,
    decreases n,
{
    if n < 10 {
        let s = seq![digit_char(n)];
        assert(nat_decimal(n) == s);
        assert(s.drop_last() =~= Seq::<char>::empty());
        assert(digits_value(s.drop_last()) == 0);
        assert(digit_of(digit_char(n)) == n);
        assert(digits_value(s) == digits_value(s.drop_last()) * 10 + digit_of(s.last()));
    } else {
        lemma_nat_decimal_value(n / 10);
        let s = nat_decimal(n);
        assert(s.drop_last() =~= nat_decimal(n / 10));
        assert(digit_of(digit_char(n % 10)) == n % 10);
        assert(digits_value(s) == digits_value(s.drop_last()) * 10 + digit_of(s.last()));
        assert((n / 10) * 10 + n % 10 == n) by (nonlinear_arith);
        assert(s[0] == nat_decimal(n / 10)[0]);
    }
}

/// Padding a text to a width keeps the text in front and fills with spaces
/// up to the width; a text as wide or wider stays as it is.
pub proof fn law_padding_keeps_text_and_fills_with_spaces(s: Seq<char>, width: nat)
    ensures
        pad_right_spec(s, width).len() == if s.len() < width {
            width
        } else {
            s.len()
        },
        pad_right_spec(s, width).subrange(0, s.len() as int) == s,
        forall|i: int|
            s.len() <= i < pad_right_spec(s, width).len() ==> #[trigger] pad_right_spec(
                s,
                width,
            )[i] == ' ',
{
    let t = pad_right_spec(s, width);
    assert(t.subrange(0, s.len() as int) =~= s);
}

/// Trimming leaves neither leading nor trailing whitespace, and removes
/// nothing else: what stays is a stretch of the text.
pub proof fn law_trim_removes_only_outer_whitespace(s: Seq<char>)
    ensures
        trim_spec(s).len() == 0 || (!is_white_space(trim_spec(s)[0]) && !is_white_space(
            trim_spec(s).last(),
        )),
        exists|i: int|
            0 <= i <= s.len() - trim_spec(s).len() && #[trigger] s.subrange(
                i,
                i + trim_spec(s).len(),
            ) == trim_spec(s),
{
    let a = trim_start_spec(s);
    lemma_trim_start_shape(s);
    lemma_trim_start_suffix(s);
    lemma_trim_end_shape(a);
    let t = trim_end_spec(a);
    let k = s.len() - a.len();
    if t.len() > 0 {
        assert(t[0] == a.subrange(0, t.len() as int)[0]);
    }
    assert(s.subrange(k, k + t.len()) =~= t);
    assert(trim_spec(s) == t);
    assert(s.subrange(k, k + trim_spec(s).len()) == trim_spec(s));
}

proof fn lemma_trim_start_suffix(s: Seq<char>)
    ensures
        trim_start_spec(s) == s.subrange(s.len() - trim_start_spec(s).len(), s.len() as int),
    decreases s.len(),
{
    if s.len() > 0 && is_white_space(s[0]) {
        lemma_trim_start_suffix(s.drop_first());
        lemma_trim_start_shape(s.drop_first());
        let t = trim_start_spec(s.drop_first());
        assert(s.drop_first().subrange(s.len() - 1 - t.len(), s.len() - 1) =~= s.subrange(
            s.len() - t.len(),
            s.len() as int,
        ));
    } else {
        assert(s.subrange(0, s.len() as int) =~= s);
    }
}

/// A user without a nickname is shown with `-` in its place, after the user
/// name in brackets.
pub proof fn law_user_text_without_nickname(u: User)
    requires
        u.nickname is None,
        u.email is None,
    ensures
        user_text(u) == u.username@ + " (-)"@,
{
    reveal_strlit(" (-)");
    reveal_strlit(" (");
    reveal_strlit("-");
    reveal_strlit(")");
    assert(user_text(u) =~= u.username@ + " (-)"@);
}

} // verus!
