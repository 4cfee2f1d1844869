use cnb_cli::actions::{
    confirms_deletion, BuildAction, IssueAction, Label, Output, PrAction, RepoAction, UserAction,
};
use cnb_cli::config::{AuthConfig, DEFAULT_API_URL};

fn file(token: Option<&str>, api_url: Option<&str>) -> AuthConfig {
    AuthConfig { token: token.map(str::to_string), api_url: api_url.map(str::to_string) }
}

#[test]
fn command_line_wins_over_file() {
    let r = AuthConfig::resolve(Some("https://cli"), Some("cli-token"), file(Some("f"), Some("https://file")));
    assert_eq!(r.api_url, "https://cli");
    assert_eq!(r.token.as_deref(), Some("cli-token"));
}

#[test]
fn file_wins_over_default() {
    let r = AuthConfig::resolve(None, None, file(Some("f"), Some("https://file")));
    assert_eq!(r.api_url, "https://file");
    assert_eq!(r.token.as_deref(), Some("f"));
}

#[test]
fn default_url_and_no_token() {
    let r = AuthConfig::resolve(None, None, AuthConfig::default());
    assert_eq!(r.api_url, DEFAULT_API_URL);
    assert_eq!(r.api_url, "https://api.cnb.cool");
    assert!(r.token.is_none());
}

#[test]
fn deletion_needs_y() {
    assert!(confirms_deletion("y\n"));
    assert!(confirms_deletion("  Y  "));
    assert!(!confirms_deletion("yes\n"));
    assert!(!confirms_deletion("\n"));
    assert!(!confirms_deletion("n"));
}

#[test]
fn plans_of_commands() {
    let p = UserAction::Info.plan();
    assert_eq!((p.collect_all, p.confirm, p.output), (None, false, Output::One));

    let list = |all| RepoAction::List { group: None, page: None, page_size: None, all };
    assert_eq!(list(true).plan().collect_all, Some(10));
    assert_eq!(list(false).plan().collect_all, None);
    assert_eq!(list(false).plan().output, Output::List);
    let del = |force| RepoAction::Delete { slug: "o/r".to_string(), force };
    assert!(del(false).plan().confirm);
    assert!(!del(true).plan().confirm);
    assert_eq!(del(true).plan().output, Output::Deleted);

    let issues = IssueAction::List { repo: "o/r".to_string(), page: None, page_size: None, all: true };
    assert_eq!(issues.plan().collect_all, Some(30));
    let create = IssueAction::Create { repo: "o/r".to_string(), title: "t".to_string(), body: None };
    assert_eq!(create.plan().output, Output::Created(Label::Created));

    let merge = PrAction::Merge { repo: "o/r".to_string(), number: 1 };
    assert_eq!(merge.plan().output, Output::Created(Label::Merged));
    assert_eq!(Label::Merged.text(), "Merged");

    let trigger = BuildAction::Trigger { repo: "o/r".to_string(), branch: "main".to_string(), commit: None };
    assert_eq!(trigger.plan().output, Output::Created(Label::Triggered));
    let cancel = BuildAction::Cancel { repo: "o/r".to_string(), sn: "1".to_string() };
    assert_eq!(cancel.plan().output, Output::Created(Label::Cancelled));
    assert_eq!(Label::Cancelled.text(), "Cancelled");
    let logs = BuildAction::Logs { repo: "o/r".to_string(), sn: "1".to_string() };
    assert_eq!(logs.plan().output, Output::Logs);
}
