//! A verified policy core for a merge-request webhook service.
//!
//! The library receives a decoded merge-request event, looks for an
//! issue-tracker reference in the source branch or the description,
//! and decides what the service must do next: report on the ticket,
//! or close the merge request and leave an explanatory comment.
//! The surrounding process performs the network calls and feeds their
//! results back into the decision engine.

pub mod engine;
pub mod extract;
pub mod gitlab;
