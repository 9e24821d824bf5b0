//! The decision engine.
//!
//! One inbound merge-request event is processed as a short dialogue
//! between this engine and the surrounding process. The engine decides;
//! the caller performs the outbound network calls and hands each answer
//! back:
//!
//! 1. [`intake`] reads the event and yields an [`IntakeDecision`]: an
//!    immediate outcome, a tracker lookup to perform, a merge request
//!    to close, or a processing error when the project id is missing.
//! 2. After a lookup, [`lookup_done`] turns the tracker's answer into
//!    the final outcome.
//! 3. After a close attempt, [`close_done`] decides whether the
//!    explanatory comment is posted: only a successful close is
//!    followed by a comment; a failed close is terminal.
//! 4. After a comment attempt, [`comment_done`] gives the final
//!    outcome; a failed comment degrades the outcome but never undoes
//!    the close.
//!
//! The spec functions [`spec_run_calls`] and [`spec_run_outcome`]
//! state, over one whole dialogue, which outbound calls are made in
//! which order and which outcome is reached; the proof functions at
//! the end of this module are the laws the engine obeys.

use vstd::prelude::*;
use vstd::string::StringExecFns;
use crate::extract::extract_jira_ticket;
use crate::extract::spec_extract;
use crate::gitlab::GitLabMergeRequestEvent;

verus! {

/// Where a ticket reference was found: the source branch name takes
/// precedence; the description is consulted only when the branch
/// yields nothing.
#[derive(Debug, Clone, Copy, PartialEq, Eq, Structural)]
pub enum TicketSource {
    Branch,
    Description,
}

/// The final result of processing one event.
#[derive(Debug, Clone, Copy, PartialEq, Eq, Structural)]
pub enum ActionOutcome {
    /// The event's state was not "opened"; nothing was done.
    Ignored,
    /// A reference was found and the tracker confirmed the ticket.
    ValidTicket(TicketSource),
    /// A reference was found but the tracker did not confirm it.
    InvalidTicket(TicketSource),
    /// No reference anywhere: the merge request was closed and the
    /// explanatory comment was posted.
    ClosedCommented,
    /// The merge request was closed, but posting the comment failed;
    /// the close stands and the failure is only recorded.
    ClosedCommentFailed,
    /// Closing the merge request failed; no comment was attempted.
    CloseFailed,
}

/// The tracker's answer to a lookup: the resolved issue key, or a
/// uniform negative that covers a missing ticket as well as any
/// failure to reach or read the tracker.
#[derive(Debug, Clone)]
pub enum TicketLookupResult {
    Found(String),
    NotFound,
}

/// What the engine asks for after reading the event.
#[derive(Debug, Clone)]
pub enum IntakeDecision {
    /// The outcome is already known; reply with it.
    Finish(ActionOutcome),
    /// Ask the tracker whether `key` names an existing ticket.
    Lookup { source: TicketSource, key: String },
    /// Close the merge request, then report back with `close_done`.
    Close { project_id: u64, mr_iid: u64 },
    /// The close path was reached but the event carries no project id:
    /// a processing error, answered with an opaque failure reply.
    MissingProjectId,
}

/// What the engine asks for after a close attempt.
#[derive(Debug, Clone)]
pub enum CloseDecision {
    /// The close succeeded: post the explanatory comment, then report
    /// back with `comment_done`.
    PostComment { project_id: u64, mr_iid: u64 },
    /// The close failed: the run is over.
    Finish(ActionOutcome),
}

/// One outbound call, as recorded by the run-level specification.
#[derive(Debug, Clone, Copy, PartialEq, Eq, Structural)]
pub enum OutboundCall {
    Lookup,
    Close,
    Comment,
}

/// The reply the webhook endpoint sends for one processed event.
#[derive(Debug, Clone)]
pub struct WebhookReply {
    pub status: u16,
    pub body: String,
}

/// The lifecycle state the event reports.
pub open spec fn spec_state(ev: GitLabMergeRequestEvent) -> Seq<char> {
    ev.object_attributes.state@
}

/// Only events in state "opened" are acted on.
pub open spec fn spec_is_opened(ev: GitLabMergeRequestEvent) -> bool {
    spec_state(ev) == "opened"@
}

/// The ticket reference the source branch yields, if any.
pub open spec fn spec_branch_ref(ev: GitLabMergeRequestEvent) -> Option<Seq<char>> {
    spec_extract(ev.object_attributes.source_branch@)
}

/// The ticket reference the description yields, if any.
pub open spec fn spec_description_ref(ev: GitLabMergeRequestEvent) -> Option<Seq<char>> {
    spec_extract(ev.object_attributes.description@)
}

/// The one reference the engine consults, with its origin: the branch
/// reference when there is one, else the description reference.
pub open spec fn spec_consulted_ref(ev: GitLabMergeRequestEvent) -> Option<
    (TicketSource, Seq<char>),
> {
    if spec_branch_ref(ev) is Some {
        Some((TicketSource::Branch, spec_branch_ref(ev)->Some_0))
    } else if spec_description_ref(ev) is Some {
        Some((TicketSource::Description, spec_description_ref(ev)->Some_0))
    } else {
        None
    }
}

/// The outbound calls one whole run makes, in order. Only the close
/// attempt's result shapes the calls: after a failed close the comment
/// is never attempted, while a lookup ends the run either way and a
/// comment is attempted after every successful close.
pub open spec fn spec_run_calls(ev: GitLabMergeRequestEvent, close_ok: bool) -> Seq<
    OutboundCall,
> {
    if !spec_is_opened(ev) {
        Seq::empty()
    } else if spec_consulted_ref(ev) is Some {
        seq![OutboundCall::Lookup]
    } else if ev.project.id is None {
        Seq::empty()
    } else if close_ok {
        seq![OutboundCall::Close, OutboundCall::Comment]
    } else {
        seq![OutboundCall::Close]
    }
}

/// The outcome one whole run reaches, given the collaborators'
/// answers; `None` is the processing error of a missing project id.
pub open spec fn spec_run_outcome(
    ev: GitLabMergeRequestEvent,
    lookup_found: bool,
    close_ok: bool,
    comment_ok: bool,
) -> Option<ActionOutcome> {
    if !spec_is_opened(ev) {
        Some(ActionOutcome::Ignored)
    } else {
        match spec_consulted_ref(ev) {
            Some(p) => Some(
                if lookup_found {
                    ActionOutcome::ValidTicket(p.0)
                } else {
                    ActionOutcome::InvalidTicket(p.0)
                },
            ),
            None => match ev.project.id {
                None => None,
                Some(_pid) => Some(
                    if !close_ok {
                        ActionOutcome::CloseFailed
                    } else if comment_ok {
                        ActionOutcome::ClosedCommented
                    } else {
                        ActionOutcome::ClosedCommentFailed
                    },
                ),
            },
        }
    }
}

/// Read one event and decide the first step: ignore anything not in
/// state "opened"; otherwise consult the source branch, then the
/// description, for a ticket reference; with a reference, ask for a
/// tracker lookup; with none, ask for the close, or report the
/// missing project id.
pub fn intake(ev: &GitLabMergeRequestEvent) -> (d: IntakeDecision)
    ensures
        !spec_is_opened(*ev) ==> (d matches IntakeDecision::Finish(o) && o
            == ActionOutcome::Ignored),
        spec_is_opened(*ev) && spec_branch_ref(*ev) is Some ==> (d
            matches IntakeDecision::Lookup { source, key } && source == TicketSource::Branch
            && Some(key@) == spec_branch_ref(*ev)),
        spec_is_opened(*ev) && spec_branch_ref(*ev) is None && spec_description_ref(*ev) is Some
            ==> (d matches IntakeDecision::Lookup { source, key } && source
            == TicketSource::Description && Some(key@) == spec_description_ref(*ev)),
        spec_is_opened(*ev) && spec_consulted_ref(*ev) is None && ev.project.id is Some ==> (d
            matches IntakeDecision::Close { project_id, mr_iid } && Some(project_id)
            == ev.project.id && mr_iid == ev.object_attributes.iid),
        spec_is_opened(*ev) && spec_consulted_ref(*ev) is None && ev.project.id is None ==> d
            is MissingProjectId,
{
    let opened = String::from_str("opened");
    if !(ev.object_attributes.state == opened) {
        return IntakeDecision::Finish(ActionOutcome::Ignored);
    }
    match extract_jira_ticket(ev.object_attributes.source_branch.as_str()) {
        Some(key) => IntakeDecision::Lookup { source: TicketSource::Branch, key },
        None => match extract_jira_ticket(ev.object_attributes.description.as_str()) {
            Some(key) => IntakeDecision::Lookup { source: TicketSource::Description, key },
            None => match ev.project.id {
                Some(project_id) => IntakeDecision::Close {
                    project_id,
                    mr_iid: ev.object_attributes.iid,
                },
                None => IntakeDecision::MissingProjectId,
            },
        },
    }
}

/// Turn the tracker's answer into the final outcome: a confirmed
/// ticket is valid, and every other answer — missing ticket or failed
/// call alike — counts uniformly as invalid.
pub fn lookup_done(source: TicketSource, result: &TicketLookupResult) -> (o: ActionOutcome)
    ensures
        o == (if result is Found {
            ActionOutcome::ValidTicket(source)
        } else {
            ActionOutcome::InvalidTicket(source)
        }),
{
    match result {
        TicketLookupResult::Found(_key) => ActionOutcome::ValidTicket(source),
        TicketLookupResult::NotFound => ActionOutcome::InvalidTicket(source),
    }
}

/// Decide what follows the close attempt: a successful close is
/// followed by the explanatory comment on the same merge request; a
/// failed close ends the run with the failure outcome.
pub fn close_done(project_id: u64, mr_iid: u64, close_ok: bool) -> (d: CloseDecision)
    ensures
        close_ok ==> (d matches CloseDecision::PostComment { project_id: p, mr_iid: m } && p
            == project_id && m == mr_iid),
        !close_ok ==> (d matches CloseDecision::Finish(o) && o == ActionOutcome::CloseFailed),
{
    if close_ok {
        CloseDecision::PostComment { project_id, mr_iid }
    } else {
        CloseDecision::Finish(ActionOutcome::CloseFailed)
    }
}

/// The final outcome after the comment attempt: the close already
/// happened, so a comment failure only degrades the outcome.
pub fn comment_done(comment_ok: bool) -> (o: ActionOutcome)
    ensures
        o == (if comment_ok {
            ActionOutcome::ClosedCommented
        } else {
            ActionOutcome::ClosedCommentFailed
        }),
{
    if comment_ok {
        ActionOutcome::ClosedCommented
    } else {
        ActionOutcome::ClosedCommentFailed
    }
}

/// The human-readable message of each outcome.
pub open spec fn spec_outcome_message(o: ActionOutcome) -> Seq<char> {
    match o {
        ActionOutcome::Ignored => "ignored (not opened)"@,
        ActionOutcome::ValidTicket(TicketSource::Branch) => "valid ticket in branch"@,
        ActionOutcome::ValidTicket(TicketSource::Description) => "valid ticket in description"@,
        ActionOutcome::InvalidTicket(TicketSource::Branch) => "invalid ticket in branch"@,
        ActionOutcome::InvalidTicket(TicketSource::Description) => "invalid ticket in description"@,
        ActionOutcome::ClosedCommented => "closed, commented"@,
        ActionOutcome::ClosedCommentFailed => "closed, comment failed"@,
        ActionOutcome::CloseFailed => "close failed"@,
    }
}

/// The human-readable message of an outcome.
pub fn outcome_message(o: &ActionOutcome) -> (s: String)
    ensures
        s@ == spec_outcome_message(*o),
{
    match o {
        ActionOutcome::Ignored => String::from_str("ignored (not opened)"),
        ActionOutcome::ValidTicket(TicketSource::Branch) => String::from_str(
            "valid ticket in branch",
        ),
        ActionOutcome::ValidTicket(TicketSource::Description) => String::from_str(
            "valid ticket in description",
        ),
        ActionOutcome::InvalidTicket(TicketSource::Branch) => String::from_str(
            "invalid ticket in branch",
        ),
        ActionOutcome::InvalidTicket(TicketSource::Description) => String::from_str(
            "invalid ticket in description",
        ),
        ActionOutcome::ClosedCommented => String::from_str("closed, commented"),
        ActionOutcome::ClosedCommentFailed => String::from_str("closed, comment failed"),
        ActionOutcome::CloseFailed => String::from_str("close failed"),
    }
}

/// The fixed note posted on a merge request that was closed for want
/// of a ticket reference.
pub fn close_comment_body() -> (s: String)
    ensures
        s@
            == "This merge request has been closed automatically because it does not contain a valid JIRA ticket in the branch name or description."@,
{
    String::from_str(
        "This merge request has been closed automatically because it does not contain a valid JIRA ticket in the branch name or description.",
    )
}

/// Every reachable outcome is answered with a success reply carrying
/// the outcome's message; in particular a failed comment, or a failed
/// close, still answers the webhook caller in the success class.
pub fn render_reply(o: &ActionOutcome) -> (r: WebhookReply)
    ensures
        r.status == 200,
        r.body@ == spec_outcome_message(*o),
{
    WebhookReply { status: 200, body: outcome_message(o) }
}

/// The opaque reply to the one processing error: an event that
/// reaches the close path without a project id.
pub fn processing_error_reply() -> (r: WebhookReply)
    ensures
        r.status == 500,
        r.body@ == Seq::<char>::empty(),
{
    WebhookReply { status: 500, body: String::new() }
}

/// Law: an event whose state is not "opened" is acknowledged and
/// ignored — the run makes no outbound call at all and ends in the
/// ignored outcome, whatever the collaborators would have answered.
pub proof fn lemma_not_opened_is_ignored(
    ev: GitLabMergeRequestEvent,
    lookup_found: bool,
    close_ok: bool,
    comment_ok: bool,
)
    requires
        !spec_is_opened(ev),
    ensures
        spec_run_calls(ev, close_ok) =~= Seq::<OutboundCall>::empty(),
        spec_run_outcome(ev, lookup_found, close_ok, comment_ok) == Some(ActionOutcome::Ignored),
{
}

/// Law: when the source branch yields a ticket reference, the run is
/// one tracker lookup and nothing else — no close and no comment —
/// and the outcome reports the branch, valid or invalid as the
/// tracker answered.
pub proof fn lemma_branch_reference_checked(
    ev: GitLabMergeRequestEvent,
    lookup_found: bool,
    close_ok: bool,
    comment_ok: bool,
)
    requires
        spec_is_opened(ev),
        spec_branch_ref(ev) is Some,
    ensures
        spec_run_calls(ev, close_ok) =~= seq![OutboundCall::Lookup],
        !spec_run_calls(ev, close_ok).contains(OutboundCall::Close),
        !spec_run_calls(ev, close_ok).contains(OutboundCall::Comment),
        spec_run_outcome(ev, lookup_found, close_ok, comment_ok) == Some(
            if lookup_found {
                ActionOutcome::ValidTicket(TicketSource::Branch)
            } else {
                ActionOutcome::InvalidTicket(TicketSource::Branch)
            },
        ),
{
    assert forall|i: int| 0 <= i < spec_run_calls(ev, close_ok).len() implies spec_run_calls(
        ev,
        close_ok,
    )[i] == OutboundCall::Lookup by {}
}

/// Law: the description plays no part once the branch yields a
/// reference — two events that differ only in their description run
/// the same calls and reach the same outcome.
pub proof fn lemma_description_not_consulted(
    ev1: GitLabMergeRequestEvent,
    ev2: GitLabMergeRequestEvent,
    lookup_found: bool,
    close_ok: bool,
    comment_ok: bool,
)
    requires
        spec_is_opened(ev1),
        spec_branch_ref(ev1) is Some,
        spec_state(ev2) == spec_state(ev1),
        ev2.object_attributes.source_branch@ == ev1.object_attributes.source_branch@,
        ev2.project.id == ev1.project.id,
        ev2.object_attributes.iid == ev1.object_attributes.iid,
    ensures
        spec_run_calls(ev2, close_ok) == spec_run_calls(ev1, close_ok),
        spec_run_outcome(ev2, lookup_found, close_ok, comment_ok) == spec_run_outcome(
            ev1,
            lookup_found,
            close_ok,
            comment_ok,
        ),
{
}

/// Law: with no reference in the branch nor in the description, the
/// run closes the merge request and then comments on it — exactly one
/// close and one comment, the close strictly first — and when both
/// succeed the outcome records the close and the comment.
pub proof fn lemma_auto_close_then_comment(
    ev: GitLabMergeRequestEvent,
    lookup_found: bool,
    comment_ok: bool,
)
    requires
        spec_is_opened(ev),
        spec_branch_ref(ev) is None,
        spec_description_ref(ev) is None,
        ev.project.id is Some,
    ensures
        spec_run_calls(ev, true) =~= seq![OutboundCall::Close, OutboundCall::Comment],
        spec_run_calls(ev, true).len() == 2,
        spec_run_calls(ev, true)[0] == OutboundCall::Close,
        spec_run_calls(ev, true)[1] == OutboundCall::Comment,
        !spec_run_calls(ev, true).contains(OutboundCall::Lookup),
        comment_ok ==> spec_run_outcome(ev, lookup_found, true, comment_ok) == Some(
            ActionOutcome::ClosedCommented,
        ),
{
    assert forall|i: int| 0 <= i < spec_run_calls(ev, true).len() implies spec_run_calls(ev, true)[i]
        != OutboundCall::Lookup by {}
}

/// Law: a failed comment does not undo the close — the run is the
/// same close followed by the same comment attempt, the outcome still
/// reflects the successful close, only degraded, and it is still a
/// reachable outcome answered in the success class.
pub proof fn lemma_comment_failure_is_swallowed(ev: GitLabMergeRequestEvent, lookup_found: bool)
    requires
        spec_is_opened(ev),
        spec_branch_ref(ev) is None,
        spec_description_ref(ev) is None,
        ev.project.id is Some,
    ensures
        spec_run_calls(ev, true) =~= seq![OutboundCall::Close, OutboundCall::Comment],
        spec_run_outcome(ev, lookup_found, true, false) == Some(ActionOutcome::ClosedCommentFailed),
        spec_run_outcome(ev, lookup_found, true, false) is Some,
{
}

/// Law: a failed close is terminal — the run is exactly the one close
/// attempt, no comment is ever attempted, and the outcome is the
/// close failure.
pub proof fn lemma_close_failure_stops_the_run(
    ev: GitLabMergeRequestEvent,
    lookup_found: bool,
    comment_ok: bool,
)
    requires
        spec_is_opened(ev),
        spec_branch_ref(ev) is None,
        spec_description_ref(ev) is None,
        ev.project.id is Some,
    ensures
        spec_run_calls(ev, false) =~= seq![OutboundCall::Close],
        !spec_run_calls(ev, false).contains(OutboundCall::Comment),
        spec_run_outcome(ev, lookup_found, false, comment_ok) == Some(ActionOutcome::CloseFailed),
{
    assert forall|i: int| 0 <= i < spec_run_calls(ev, false).len() implies spec_run_calls(
        ev,
        false,
    )[i] != OutboundCall::Comment by {}
}

/// Law: the engine keeps no memory between events — a run is a pure
/// function of the payload fields it reads and of the collaborators'
/// answers. Re-processing an identical payload, as an at-least-once
/// delivery does, is always accepted and repeats the same calls and
/// the same outcome; nothing guards against the repeat.
pub proof fn lemma_reprocessing_is_uniform(
    ev1: GitLabMergeRequestEvent,
    ev2: GitLabMergeRequestEvent,
    lookup_found: bool,
    close_ok: bool,
    comment_ok: bool,
)
    requires
        spec_state(ev2) == spec_state(ev1),
        ev2.object_attributes.source_branch@ == ev1.object_attributes.source_branch@,
        ev2.object_attributes.description@ == ev1.object_attributes.description@,
        ev2.project.id == ev1.project.id,
        ev2.object_attributes.iid == ev1.object_attributes.iid,
    ensures
        spec_run_calls(ev2, close_ok) == spec_run_calls(ev1, close_ok),
        spec_run_outcome(ev2, lookup_found, close_ok, comment_ok) == spec_run_outcome(
            ev1,
            lookup_found,
            close_ok,
            comment_ok,
        ),
{
}

} // verus!

