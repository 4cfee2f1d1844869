use cnb_cli::model::{
    BuildResult, BuildStatusResult, Issue, LogInfo, PrState, PullRequest, Repo, TextView, User,
};
use cnb_cli::output::{render_aborted, render_created, render_deleted, render_list, render_logs, render_one};

fn user(nickname: Option<&str>, email: Option<&str>) -> User {
    User {
        id: 1,
        username: "alice".to_string(),
        nickname: nickname.map(str::to_string),
        email: email.map(str::to_string),
    }
}

fn log(sn: Option<&str>, sha: Option<&str>, title: Option<&str>, commit_title: Option<&str>) -> LogInfo {
    LogInfo {
        sn: sn.map(str::to_string),
        status: Some("success".to_string()),
        sha: sha.map(str::to_string),
        create_time: None,
        duration: None,
        title: title.map(str::to_string),
        commit_title: commit_title.map(str::to_string),
        build_log_url: None,
    }
}

#[test]
fn user_text() {
    assert_eq!(user(Some("Al"), Some("a@x.io")).to_text(), "alice (Al) <a@x.io>");
    assert_eq!(user(None, None).to_text(), "alice (-)");
}

#[test]
fn repo_text() {
    let r = Repo {
        id: 1,
        slug: "o/r".to_string(),
        name: "r".to_string(),
        description: Some("demo".to_string()),
        private: true,
    };
    assert_eq!(r.to_text(), format!("{:<30} {:<10} {}", "o/r", "[private]", "demo"));
    let r = Repo { private: false, description: None, ..r };
    assert_eq!(r.to_text(), format!("{:<30} {:<10} ", "o/r", "[public]"));
}

#[test]
fn issue_text() {
    let i = Issue {
        id: 9,
        number: 42,
        title: "Fix it".to_string(),
        state: "open".to_string(),
        author: user(None, None),
        created_at: "2024".to_string(),
    };
    assert_eq!(i.to_text(), format!("#{:<6} [{:<6}] {:<50} @{}", 42, "open", "Fix it", "alice"));
}

#[test]
fn pull_request_text_leaves_state_unpadded() {
    let p = PullRequest {
        id: 1,
        number: 7,
        title: "Add".to_string(),
        state: PrState::Open,
        source_branch: "feat".to_string(),
        target_branch: "main".to_string(),
        author: "bob".to_string(),
        created_at: "2024".to_string(),
    };
    assert_eq!(p.to_text(), format!("#{:<6} [open] {:<50} (feat -> main) @bob", 7, "Add"));
    assert_eq!(PrState::Merged.to_text(), "merged");
    assert_eq!(PrState::Closed.to_text(), "closed");
}

#[test]
fn build_result_text() {
    let b = BuildResult { build_log_url: None, message: Some("queued".to_string()), sn: Some("cnb-1".to_string()), success: Some(true) };
    assert_eq!(b.to_text(), "sn=cnb-1 success=true queued");
    let b = BuildResult { build_log_url: None, message: Some("  ".to_string()), sn: None, success: None };
    assert_eq!(b.to_text(), "sn=- success=false");
    let b = BuildResult { build_log_url: None, message: Some(" x ".to_string()), sn: None, success: Some(false) };
    assert_eq!(b.to_text(), "sn=- success=false  x ");
}

#[test]
fn log_info_text() {
    let l = log(Some("cnb-1"), Some("0123456789abcdef"), Some("t"), Some("c"));
    assert_eq!(l.to_text(), format!("{:<18} [{:<10}] 01234567 t", "cnb-1", "success"));
    let l = log(None, Some("abc"), None, Some("c"));
    assert_eq!(l.to_text(), format!("{:<18} [{:<10}] abc c", "-", "success"));
    let l = log(None, None, None, None);
    assert_eq!(l.to_text(), format!("{:<18} [{:<10}] - ", "-", "success"));
}

#[test]
fn build_status_text() {
    assert_eq!(BuildStatusResult { status: Some("running".to_string()) }.to_text(), "running");
    assert_eq!(BuildStatusResult { status: None }.to_text(), "-");
}

#[test]
fn rendered_output_lines() {
    let u = user(None, None);
    assert_eq!(render_one(&u), "alice (-)\n");
    assert_eq!(render_created("Created", &u), "Created: alice (-)\n");
    assert_eq!(render_list(&vec![user(None, None), user(Some("A"), None)]), "alice (-)\nalice (A)\n");
    assert_eq!(render_list::<User>(&vec![]), "");
    assert_eq!(render_deleted("o/r"), "Deleted: o/r\n");
    assert_eq!(render_aborted(), "Aborted.\n");
    assert_eq!(render_logs("l1\nl2"), "l1\nl2\n");
}
