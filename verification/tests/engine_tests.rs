use jira_gitlab_webhook::engine::intake;
use jira_gitlab_webhook::engine::lookup_done;
use jira_gitlab_webhook::engine::close_done;
use jira_gitlab_webhook::engine::comment_done;
use jira_gitlab_webhook::engine::outcome_message;
use jira_gitlab_webhook::engine::close_comment_body;
use jira_gitlab_webhook::engine::render_reply;
use jira_gitlab_webhook::engine::processing_error_reply;
use jira_gitlab_webhook::engine::ActionOutcome;
use jira_gitlab_webhook::engine::CloseDecision;
use jira_gitlab_webhook::engine::IntakeDecision;
use jira_gitlab_webhook::engine::TicketLookupResult;
use jira_gitlab_webhook::engine::TicketSource;
use jira_gitlab_webhook::gitlab::Author;
use jira_gitlab_webhook::gitlab::Changes;
use jira_gitlab_webhook::gitlab::GitLabMergeRequestEvent;
use jira_gitlab_webhook::gitlab::LastCommit;
use jira_gitlab_webhook::gitlab::ObjectAttributes;
use jira_gitlab_webhook::gitlab::Project;
use jira_gitlab_webhook::gitlab::Repository;
use jira_gitlab_webhook::gitlab::User;

fn user() -> User {
    User {
        id: 1,
        name: "Jane".to_string(),
        username: "jane".to_string(),
        avatar_url: String::new(),
        email: None,
    }
}

fn project(id: Option<u64>) -> Project {
    Project {
        id,
        name: "demo".to_string(),
        description: String::new(),
        web_url: String::new(),
        avatar_url: None,
        git_ssh_url: String::new(),
        git_http_url: String::new(),
        namespace: "group".to_string(),
        visibility_level: 0,
        path_with_namespace: "group/demo".to_string(),
        default_branch: "main".to_string(),
        ci_config_path: None,
        homepage: String::new(),
        url: String::new(),
        ssh_url: String::new(),
        http_url: String::new(),
    }
}

fn event(state: &str, branch: &str, description: &str, project_id: Option<u64>, iid: u64) -> GitLabMergeRequestEvent {
    GitLabMergeRequestEvent {
        object_kind: "merge_request".to_string(),
        event_type: "merge_request".to_string(),
        user: user(),
        project: project(project_id),
        repository: Repository {
            name: "demo".to_string(),
            url: String::new(),
            description: String::new(),
            homepage: String::new(),
        },
        object_attributes: ObjectAttributes {
            id: 100,
            iid,
            target_branch: "main".to_string(),
            source_branch: branch.to_string(),
            source_project_id: 1,
            author_id: 1,
            assignee_ids: Vec::new(),
            assignee_id: None,
            reviewer_ids: Vec::new(),
            title: "a change".to_string(),
            created_at: String::new(),
            updated_at: None,
            last_edited_at: None,
            last_edited_by_id: None,
            milestone_id: None,
            state_id: 1,
            state: state.to_string(),
            blocking_discussions_resolved: true,
            work_in_progress: false,
            first_contribution: false,
            merge_status: "can_be_merged".to_string(),
            target_project_id: 1,
            description: description.to_string(),
            total_time_spent: 0,
            time_change: 0,
            human_total_time_spent: None,
            human_time_change: None,
            human_time_estimate: None,
            updated_by_id: None,
            url: String::new(),
            source: project(project_id),
            target: project(project_id),
            last_commit: LastCommit {
                id: "deadbeef".to_string(),
                message: String::new(),
                title: String::new(),
                timestamp: String::new(),
                url: String::new(),
                author: Author { name: "Jane".to_string(), email: "jane@example.com".to_string() },
            },
            labels: Vec::new(),
            action: Some("open".to_string()),
            detailed_merge_status: "mergeable".to_string(),
        },
        labels: Vec::new(),
        changes: Changes {
            updated_by_id: None,
            updated_at: None,
            labels: None,
            last_edited_at: None,
            last_edited_by_id: None,
        },
        assignees: None,
        reviewers: None,
    }
}

#[test]
fn not_opened_event_is_ignored() {
    let ev = event("closed", "feature/ABC-123-fix", "text", Some(42), 7);
    let d = intake(&ev);
    assert!(matches!(d, IntakeDecision::Finish(ActionOutcome::Ignored)));
}

#[test]
fn merged_event_is_ignored() {
    let ev = event("merged", "feature/no-ticket", "", Some(42), 7);
    let d = intake(&ev);
    assert!(matches!(d, IntakeDecision::Finish(ActionOutcome::Ignored)));
}

#[test]
fn branch_reference_goes_to_the_tracker() {
    let ev = event("opened", "feature/ABC-123-fix", "no reference here", Some(42), 7);
    match intake(&ev) {
        IntakeDecision::Lookup { source, key } => {
            assert_eq!(source, TicketSource::Branch);
            assert_eq!(key, "ABC-123".to_string());
        }
        other => panic!("expected a lookup, got {:?}", other),
    }
}

#[test]
fn branch_takes_precedence_over_description() {
    let ev = event("opened", "feature/ABC-1", "mentions XYZ-2", Some(42), 7);
    match intake(&ev) {
        IntakeDecision::Lookup { source, key } => {
            assert_eq!(source, TicketSource::Branch);
            assert_eq!(key, "ABC-1".to_string());
        }
        other => panic!("expected a lookup, got {:?}", other),
    }
}

#[test]
fn description_is_consulted_when_branch_has_nothing() {
    let ev = event("opened", "feature/no-ticket", "fixes DEF-9 finally", Some(42), 7);
    match intake(&ev) {
        IntakeDecision::Lookup { source, key } => {
            assert_eq!(source, TicketSource::Description);
            assert_eq!(key, "DEF-9".to_string());
        }
        other => panic!("expected a lookup, got {:?}", other),
    }
}

#[test]
fn resolved_ticket_in_branch_is_valid() {
    let ev = event("opened", "feature/ABC-123-fix", "", Some(42), 7);
    let d = intake(&ev);
    let key = match d {
        IntakeDecision::Lookup { source: TicketSource::Branch, key } => key,
        other => panic!("expected a branch lookup, got {:?}", other),
    };
    let result = TicketLookupResult::Found(key);
    let outcome = lookup_done(TicketSource::Branch, &result);
    assert_eq!(outcome, ActionOutcome::ValidTicket(TicketSource::Branch));
    assert_eq!(outcome_message(&outcome), "valid ticket in branch".to_string());
}

#[test]
fn unresolved_ticket_in_description_is_invalid() {
    let outcome = lookup_done(TicketSource::Description, &TicketLookupResult::NotFound);
    assert_eq!(outcome, ActionOutcome::InvalidTicket(TicketSource::Description));
    assert_eq!(outcome_message(&outcome), "invalid ticket in description".to_string());
}

#[test]
fn no_reference_leads_to_close_then_comment() {
    let ev = event("opened", "feature/no-ticket", "nothing relevant", Some(42), 7);
    let d = intake(&ev);
    let (project_id, mr_iid) = match d {
        IntakeDecision::Close { project_id, mr_iid } => (project_id, mr_iid),
        other => panic!("expected a close, got {:?}", other),
    };
    assert_eq!((project_id, mr_iid), (42, 7));
    // The close succeeds, so exactly one comment follows it.
    let after_close = close_done(project_id, mr_iid, true);
    let (cp, cm) = match after_close {
        CloseDecision::PostComment { project_id, mr_iid } => (project_id, mr_iid),
        other => panic!("expected a comment, got {:?}", other),
    };
    assert_eq!((cp, cm), (42, 7));
    let outcome = comment_done(true);
    assert_eq!(outcome, ActionOutcome::ClosedCommented);
    assert_eq!(outcome_message(&outcome), "closed, commented".to_string());
}

#[test]
fn comment_failure_degrades_but_stays_successful() {
    let ev = event("opened", "feature/no-ticket", "nothing relevant", Some(42), 7);
    let (project_id, mr_iid) = match intake(&ev) {
        IntakeDecision::Close { project_id, mr_iid } => (project_id, mr_iid),
        other => panic!("expected a close, got {:?}", other),
    };
    let after_close = close_done(project_id, mr_iid, true);
    assert!(matches!(after_close, CloseDecision::PostComment { .. }));
    let outcome = comment_done(false);
    assert_eq!(outcome, ActionOutcome::ClosedCommentFailed);
    // The webhook caller still gets a success-class reply.
    let reply = render_reply(&outcome);
    assert_eq!(reply.status, 200);
    assert_eq!(reply.body, "closed, comment failed".to_string());
}

#[test]
fn close_failure_is_terminal() {
    let ev = event("opened", "feature/no-ticket", "nothing relevant", Some(42), 7);
    let (project_id, mr_iid) = match intake(&ev) {
        IntakeDecision::Close { project_id, mr_iid } => (project_id, mr_iid),
        other => panic!("expected a close, got {:?}", other),
    };
    let after_close = close_done(project_id, mr_iid, false);
    // No comment is attempted: the decision is final.
    let outcome = match after_close {
        CloseDecision::Finish(o) => o,
        other => panic!("expected a final outcome, got {:?}", other),
    };
    assert_eq!(outcome, ActionOutcome::CloseFailed);
    assert_eq!(outcome_message(&outcome), "close failed".to_string());
}

#[test]
fn missing_project_id_is_a_processing_error() {
    let ev = event("opened", "feature/no-ticket", "nothing relevant", None, 7);
    let d = intake(&ev);
    assert!(matches!(d, IntakeDecision::MissingProjectId));
    let reply = processing_error_reply();
    assert_eq!(reply.status, 500);
    assert_eq!(reply.body, String::new());
}

#[test]
fn reprocessing_the_same_payload_repeats_the_run() {
    let ev = event("opened", "feature/no-ticket", "nothing relevant", Some(42), 7);
    for _ in 0..2 {
        let (project_id, mr_iid) = match intake(&ev) {
            IntakeDecision::Close { project_id, mr_iid } => (project_id, mr_iid),
            other => panic!("expected a close, got {:?}", other),
        };
        assert_eq!((project_id, mr_iid), (42, 7));
        let after_close = close_done(project_id, mr_iid, true);
        assert!(matches!(after_close, CloseDecision::PostComment { .. }));
        assert_eq!(comment_done(true), ActionOutcome::ClosedCommented);
    }
}

#[test]
fn every_outcome_has_its_message() {
    assert_eq!(outcome_message(&ActionOutcome::Ignored), "ignored (not opened)".to_string());
    assert_eq!(
        outcome_message(&ActionOutcome::ValidTicket(TicketSource::Branch)),
        "valid ticket in branch".to_string()
    );
    assert_eq!(
        outcome_message(&ActionOutcome::ValidTicket(TicketSource::Description)),
        "valid ticket in description".to_string()
    );
    assert_eq!(
        outcome_message(&ActionOutcome::InvalidTicket(TicketSource::Branch)),
        "invalid ticket in branch".to_string()
    );
    assert_eq!(
        outcome_message(&ActionOutcome::InvalidTicket(TicketSource::Description)),
        "invalid ticket in description".to_string()
    );
    assert_eq!(outcome_message(&ActionOutcome::ClosedCommented), "closed, commented".to_string());
    assert_eq!(
        outcome_message(&ActionOutcome::ClosedCommentFailed),
        "closed, comment failed".to_string()
    );
    assert_eq!(outcome_message(&ActionOutcome::CloseFailed), "close failed".to_string());
}

#[test]
fn ignored_event_gets_a_success_reply() {
    let reply = render_reply(&ActionOutcome::Ignored);
    assert_eq!(reply.status, 200);
    assert_eq!(reply.body, "ignored (not opened)".to_string());
}

#[test]
fn close_comment_text_is_the_fixed_note() {
    assert_eq!(
        close_comment_body(),
        "This merge request has been closed automatically because it does not contain a valid JIRA ticket in the branch name or description.".to_string()
    );
}
