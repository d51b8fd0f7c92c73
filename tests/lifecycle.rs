use projectboard::board::{Board, Event};
use projectboard::lifecycle::BoardError;

fn board() -> Board {
    Board::init("demo".to_string(), "/work/demo".to_string(), 1_700_000_000)
}

fn column_name(b: &Board, id: u64) -> String {
    let k = b.column_position(id).expect("column exists");
    b.columns[k].name.clone()
}

#[test]
fn init_creates_five_columns_and_logs() {
    let b = board();
    let names: Vec<&str> = b.columns.iter().map(|c| c.name.as_str()).collect();
    assert_eq!(names, vec!["Backlog", "To Do", "Doing", "Review", "Done"]);
    assert_eq!(b.activity.len(), 1);
    assert_eq!(b.activity[0].event, Event::ProjectInitialized);
    assert_eq!(b.activity[0].metadata.as_deref(), Some("Project: demo"));
    assert!(b.is_well_formed());
}

#[test]
fn add_start_done_move_scenario() {
    let mut b = board();
    let id = b.add_task("Fix login bug".to_string(), None, 10).unwrap();
    assert_eq!(id, 1);
    assert_eq!(column_name(&b, b.tasks[0].column_id), "Backlog");

    let branch = b.start_branch(1).unwrap();
    assert_eq!(branch, "feature/1-fix-login-bug");
    let started = b.start_task(1, Ok(()), 20).unwrap();
    assert_eq!(started, "feature/1-fix-login-bug");
    assert_eq!(b.tasks[0].branch_name.as_deref(), Some("feature/1-fix-login-bug"));
    assert_eq!(column_name(&b, b.tasks[0].column_id), "Doing");
    assert_eq!(b.tasks[0].updated_at, 20);

    let plan = b.done_plan(1, None).unwrap();
    assert_eq!(plan.commit_message, "Closes #1: Fix login bug");
    assert_eq!(plan.push_branch.as_deref(), Some("feature/1-fix-login-bug"));
    b.complete_task(1, Ok(()), 30).unwrap();
    assert_eq!(column_name(&b, b.tasks[0].column_id), "Done");

    b.move_task(1, "Review", 40).unwrap();
    assert_eq!(column_name(&b, b.tasks[0].column_id), "Review");
    assert_eq!(b.tasks[0].pr_url, None);
    assert_eq!(b.activity.last().unwrap().metadata.as_deref(), Some("Task #1: Done → Review"));
    assert_eq!(b.activity.len(), 5);
    assert!(b.is_well_formed());
}

#[test]
fn done_plan_uses_given_message() {
    let mut b = board();
    b.add_task("Write docs".to_string(), None, 10).unwrap();
    let plan = b.done_plan(1, Some("Finish docs".to_string())).unwrap();
    assert_eq!(plan.commit_message, "Finish docs");
    assert_eq!(plan.push_branch, None);
}

#[test]
fn failed_branch_creation_changes_nothing() {
    let mut b = board();
    b.add_task("Fix login bug".to_string(), None, 10).unwrap();
    let before_column = b.tasks[0].column_id;
    let before_log = b.activity.len();
    let r = b.start_task(1, Err("branch exists".to_string()), 20);
    assert_eq!(r, Err(BoardError::GitFailure("branch exists".to_string())));
    assert_eq!(b.tasks[0].column_id, before_column);
    assert_eq!(b.tasks[0].branch_name, None);
    assert_eq!(b.tasks[0].updated_at, 10);
    assert_eq!(b.activity.len(), before_log);
}

#[test]
fn failed_git_on_done_changes_nothing() {
    let mut b = board();
    b.add_task("Task".to_string(), None, 10).unwrap();
    let r = b.complete_task(1, Err("commit failed".to_string()), 20);
    assert_eq!(r, Err(BoardError::GitFailure("commit failed".to_string())));
    assert_eq!(column_name(&b, b.tasks[0].column_id), "Backlog");
}

#[test]
fn missing_task_is_reported() {
    let mut b = board();
    assert_eq!(b.start_branch(7), Err(BoardError::TaskNotFound(7)));
    assert_eq!(b.start_task(0, Ok(()), 1), Err(BoardError::TaskNotFound(0)));
    assert_eq!(b.move_task(3, "Done", 1), Err(BoardError::TaskNotFound(3)));
    assert_eq!(b.complete_task(2, Ok(()), 1), Err(BoardError::TaskNotFound(2)));
    assert_eq!(b.submit_task(2, Ok(()), None, None, 1), Err(BoardError::TaskNotFound(2)));
    assert_eq!(b.add_comment(2, "ann".to_string(), "hi".to_string(), 1), Err(BoardError::TaskNotFound(2)));
    assert_eq!(b.activity.len(), 1);
}

#[test]
fn move_to_unknown_column_is_reported() {
    let mut b = board();
    b.add_task("Task".to_string(), None, 10).unwrap();
    assert_eq!(b.move_task(1, "Archive", 20), Err(BoardError::ColumnNotFound("Archive".to_string())));
    assert_eq!(column_name(&b, b.tasks[0].column_id), "Backlog");
}

#[test]
fn missing_backlog_column_is_reported() {
    let mut b = board();
    b.columns.remove(0);
    assert_eq!(b.add_task("Task".to_string(), None, 10), Err(BoardError::ColumnNotFound("Backlog".to_string())));
    assert!(b.tasks.is_empty());
}

#[test]
fn promote_turns_idea_into_backlog_task() {
    let mut b = board();
    let first = b.create_idea("Dark mode".to_string(), 5).unwrap();
    let second = b.create_idea("Export to PDF".to_string(), 6).unwrap();
    assert_eq!((first, second), (1, 2));
    let task = b.promote_idea(2, 7).unwrap();
    assert_eq!(task, 1);
    assert_eq!(b.ideas.len(), 1);
    assert_eq!(b.ideas[0].id, 1);
    assert_eq!(b.idea_index(2), None);
    assert_eq!(b.tasks[0].title, "Export to PDF");
    assert_eq!(b.tasks[0].description, None);
    assert_eq!(column_name(&b, b.tasks[0].column_id), "Backlog");
    assert_eq!(b.activity.last().unwrap().event, Event::IdeaPromoted);
    assert_eq!(b.activity.last().unwrap().metadata.as_deref(), Some("Idea #2 → Task #1: Export to PDF"));
    assert_eq!(b.promote_idea(2, 8), Err(BoardError::IdeaNotFound(2)));
    assert!(b.is_well_formed());
}

#[test]
fn submit_requires_a_branch() {
    let mut b = board();
    b.add_task("Task".to_string(), None, 10).unwrap();
    assert_eq!(b.submit_branch(1), Err(BoardError::NoBranch(1)));
    let r = b.submit_task(1, Ok(()), None, None, 20);
    assert_eq!(r, Err(BoardError::NoBranch(1)));
    assert_eq!(b.tasks[0].pr_url, None);
    assert_eq!(column_name(&b, b.tasks[0].column_id), "Backlog");
}

#[test]
fn submit_without_remote_records_manual_note() {
    let mut b = board();
    b.add_task("Fix login bug".to_string(), None, 10).unwrap();
    b.start_task(1, Ok(()), 20).unwrap();
    assert_eq!(b.submit_branch(1).unwrap(), "feature/1-fix-login-bug");
    let link = b.submit_task(1, Ok(()), None, None, 30).unwrap();
    assert_eq!(link, "Manual PR needed for branch: feature/1-fix-login-bug");
    assert_eq!(b.tasks[0].pr_url.as_deref(), Some(link.as_str()));
    assert_eq!(column_name(&b, b.tasks[0].column_id), "Review");
    assert_eq!(b.activity.last().unwrap().metadata.as_deref(), Some("Task #1: PR created"));
}

#[test]
fn submit_to_github_without_token_records_compare_link() {
    let mut b = board();
    b.add_task("Fix login bug".to_string(), None, 10).unwrap();
    b.start_task(1, Ok(()), 20).unwrap();
    let remote = Some("git@github.com:acme/board.git".to_string());
    let link = b.submit_task(1, Ok(()), remote, None, 30).unwrap();
    assert_eq!(link, "https://github.com/acme/board/compare/main...feature/1-fix-login-bug");
    assert_eq!(column_name(&b, b.tasks[0].column_id), "Review");
}

#[test]
fn submit_to_github_with_token_records_pull_link() {
    let mut b = board();
    b.add_task("Fix login bug".to_string(), None, 10).unwrap();
    b.start_task(1, Ok(()), 20).unwrap();
    let remote = Some("https://github.com/acme/board".to_string());
    let link = b.submit_task(1, Ok(()), remote, Some("SECRET-REDACTED".to_string()), 30).unwrap();
    assert_eq!(link, "https://github.com/acme/board/pull/123");
}

#[test]
fn submit_with_failed_push_changes_nothing() {
    let mut b = board();
    b.add_task("Task".to_string(), None, 10).unwrap();
    b.start_task(1, Ok(()), 20).unwrap();
    let r = b.submit_task(1, Err("rejected".to_string()), None, None, 30);
    assert_eq!(r, Err(BoardError::GitFailure("rejected".to_string())));
    assert_eq!(b.tasks[0].pr_url, None);
    assert_eq!(column_name(&b, b.tasks[0].column_id), "Doing");
}

#[test]
fn activity_log_grows_by_one_per_operation() {
    let mut b = board();
    let mut count = b.activity.len();
    b.add_task("One".to_string(), Some("first".to_string()), 1).unwrap();
    assert_eq!(b.activity.len(), count + 1);
    count += 1;
    b.create_idea("Idea".to_string(), 2).unwrap();
    assert_eq!(b.activity.len(), count + 1);
    count += 1;
    b.add_comment(1, "ann".to_string(), "looks good".to_string(), 3).unwrap();
    assert_eq!(b.activity.len(), count + 1);
    assert_eq!(b.activity.last().unwrap().metadata.as_deref(), Some("Task #1: comment by ann"));
    count += 1;
    assert!(b.move_task(1, "Nowhere", 4).is_err());
    assert_eq!(b.activity.len(), count);
    b.start_task(1, Ok(()), 5).unwrap();
    assert_eq!(b.activity.len(), count + 1);
    for (i, entry) in b.activity.iter().enumerate() {
        assert_eq!(entry.id, i as u64 + 1);
    }
    assert_eq!(b.comments[0].id, 1);
    assert_eq!(b.comments[0].task_id, 1);
}

#[test]
fn tasks_in_column_newest_first() {
    let mut b = board();
    b.add_task("A".to_string(), None, 1).unwrap();
    b.add_task("B".to_string(), None, 2).unwrap();
    b.add_task("C".to_string(), None, 3).unwrap();
    b.move_task(2, "Doing", 4).unwrap();
    let backlog = b.columns[0].id;
    assert_eq!(b.tasks_in_column(backlog), vec![3, 1]);
    assert_eq!(b.tasks_in_column(b.columns[2].id), vec![2]);
}

#[test]
fn event_tags_round_trip() {
    assert_eq!(Event::TaskStarted.tag(), "task_started");
    assert_eq!(Event::from_tag("idea_promoted"), Some(Event::IdeaPromoted));
    assert_eq!(Event::from_tag("unknown"), None);
}

#[test]
fn column_navigation_stays_in_bounds() {
    assert_eq!(Board::next_column(0, 5), 1);
    assert_eq!(Board::next_column(4, 5), 4);
    assert_eq!(Board::next_column(0, 0), 0);
    assert_eq!(Board::previous_column(3), 2);
    assert_eq!(Board::previous_column(0), 0);
}

#[test]
fn ill_formed_board_is_detected() {
    let mut b = board();
    b.add_task("A".to_string(), None, 1).unwrap();
    b.tasks[0].id = 9;
    assert!(!b.is_well_formed());
}

#[test]
fn promote_without_backlog_changes_nothing() {
    let mut b = board();
    b.create_idea("Idea".to_string(), 1).unwrap();
    b.columns.remove(0);
    let before = b.activity.len();
    assert_eq!(b.promote_idea(1, 2), Err(BoardError::ColumnNotFound("Backlog".to_string())));
    assert_eq!(b.ideas.len(), 1);
    assert!(b.tasks.is_empty());
    assert_eq!(b.activity.len(), before);
}

#[test]
fn submit_with_empty_branch_is_refused() {
    let mut b = board();
    b.add_task("Task".to_string(), None, 1).unwrap();
    b.tasks[0].branch_name = Some(String::new());
    assert_eq!(b.submit_task(1, Ok(()), None, None, 2), Err(BoardError::NoBranch(1)));
}
