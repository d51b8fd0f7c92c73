use projectboard::board::Board;
use projectboard::branch::{branch_name, slug_of_lowered, slugify};
use projectboard::csv::{escape_csv, unescape_csv};
use projectboard::github::{compare_url, extract_github_info, review_link, GitHubClient, PullRequestStatus};

#[test]
fn branch_name_from_title() {
    assert_eq!(branch_name(1, "Fix login bug"), "feature/1-fix-login-bug");
    assert_eq!(branch_name(42, "Add OAuth (v2)!"), "feature/42-add-oauth-v2");
    assert_eq!(branch_name(7, ""), "feature/7-");
    assert_eq!(branch_name(1, "Fix login bug"), branch_name(1, "Fix login bug"));
}

#[test]
fn slug_keeps_unicode_letters() {
    assert_eq!(slugify("Café Menü 2"), "café-menü-2");
    assert_eq!(slugify("A-B_C"), "a-bc");
}

#[test]
fn escape_csv_quotes_only_when_needed() {
    assert_eq!(escape_csv("plain"), "plain");
    assert_eq!(escape_csv(""), "");
    assert_eq!(escape_csv("a,b"), "\"a,b\"");
    assert_eq!(escape_csv("say \"hi\""), "\"say \"\"hi\"\"\"");
    assert_eq!(escape_csv("two\nlines"), "\"two\nlines\"");
}

#[test]
fn csv_field_round_trips() {
    for s in ["plain", "", "a,b", "\"", "\"\"", "x \"y\", z\nw", ",", "\"a\""] {
        assert_eq!(unescape_csv(&escape_csv(s)), s);
    }
}

#[test]
fn extract_github_info_forms() {
    assert_eq!(
        extract_github_info("git@github.com:owner/repo.git"),
        Some(("owner".to_string(), "repo".to_string()))
    );
    assert_eq!(
        extract_github_info("https://github.com/owner/repo.git"),
        Some(("owner".to_string(), "repo".to_string()))
    );
    assert_eq!(
        extract_github_info("https://github.com/owner/repo"),
        Some(("owner".to_string(), "repo".to_string()))
    );
    assert_eq!(extract_github_info("https://gitlab.com/owner/repo.git"), None);
    assert_eq!(extract_github_info("https://github.com/owner/repo/extra"), None);
    assert_eq!(extract_github_info("https://github.com/owner"), None);
}

#[test]
fn github_client_links() {
    let c = GitHubClient::new("o".to_string(), "r".to_string(), None);
    assert_eq!(c.create_pull_request("t", "b", "feat", "main"), "https://github.com/o/r/compare/main...feat");
    let c = GitHubClient::new("o".to_string(), "r".to_string(), Some("SECRET-REDACTED".to_string()));
    assert_eq!(c.create_pull_request("t", "b", "feat", "main"), "https://github.com/o/r/pull/123");
    assert_eq!(c.get_pull_request_status(1), PullRequestStatus::Open);
    assert_eq!(compare_url("a", "b", "main", "x"), "https://github.com/a/b/compare/main...x");
}

#[test]
fn review_link_for_unrecognised_remote() {
    let remote = Some("https://example.org/a/b.git".to_string());
    assert_eq!(review_link(&remote, None, "t", "", "feature/1-x"), "Manual PR needed for branch: feature/1-x");
}

#[test]
fn csv_export_rows() {
    let mut b = Board::init("demo".to_string(), "/w".to_string(), 0);
    b.add_task("Fix, then test".to_string(), Some("say \"hi\"".to_string()), 0).unwrap();
    b.add_task("Plain".to_string(), None, 86_400 + 3_661).unwrap();
    b.move_task(2, "Doing", 86_400 + 3_661).unwrap();
    let out = b.export_csv().unwrap();
    let expected = "ID,Title,Description,Column,Created,Updated,Branch,PR\n\
1,\"Fix, then test\",\"say \"\"hi\"\"\",Backlog,1970-01-01 00:00:00,1970-01-01 00:00:00,,\n\
2,Plain,,Doing,1970-01-02 01:01:01,1970-01-02 01:01:01,,\n";
    assert_eq!(out, expected);
}

#[test]
fn csv_row_formats_times() {
    let mut b = Board::init("demo".to_string(), "/w".to_string(), 0);
    b.add_task("T".to_string(), None, 1_700_000_000).unwrap();
    assert_eq!(
        b.csv_row(0).unwrap(),
        "1,T,,Backlog,2023-11-14 22:13:20,2023-11-14 22:13:20,,"
    );
}

#[test]
fn markdown_export_sections() {
    let mut b = Board::init("demo".to_string(), "/w".to_string(), 0);
    b.add_task("First".to_string(), Some("details".to_string()), 1).unwrap();
    b.add_task("Second".to_string(), None, 2).unwrap();
    b.start_task(2, Ok(()), 3).unwrap();
    let out = b.export_markdown();
    let expected = "# ProjectBoard Export\n\n\
## Backlog (1)\n\n\
- **#1**: First\n  - details\n\n\
## To Do (0)\n\n\
## Doing (1)\n\n\
- **#2**: Second\n  - Branch: `feature/2-second`\n\n\
## Review (0)\n\n\
## Done (0)\n\n";
    assert_eq!(out, expected);
}

#[test]
fn slug_of_lowered_text() {
    assert_eq!(slug_of_lowered("fix login bug"), "fix-login-bug");
    assert_eq!(slug_of_lowered("v1.2 release!"), "v12-release");
    assert_eq!(slug_of_lowered(""), "");
}

#[test]
fn unescape_leaves_plain_fields() {
    assert_eq!(unescape_csv("plain"), "plain");
    assert_eq!(unescape_csv("\""), "\"");
    assert_eq!(unescape_csv("\"a,b\""), "a,b");
    assert_eq!(unescape_csv("\"say \"\"hi\"\"\""), "say \"hi\"");
}

#[test]
fn escaped_record_keeps_field_count() {
    let fields = ["a,b", "plain", "x\"y", "two\nlines"];
    let line: Vec<String> = fields.iter().map(|f| escape_csv(f)).collect();
    let line = line.join(",");
    let mut inside = false;
    let mut separators = 0;
    for c in line.chars() {
        if c == '"' {
            inside = !inside;
        } else if !inside && (c == ',' || c == '\n') {
            separators += 1;
        }
    }
    assert!(!inside);
    assert_eq!(separators, fields.len() - 1);
}
