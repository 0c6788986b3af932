//! The two requests of an upload and the handling of their answers.
//!
//! The metadata is sent first, the documents second. The caller performs
//! each request and hands the answer to the session, which says what to do
//! next.

use crate::error::UploadError;
use crate::text::{chars_of, string_of};
use crate::upload::UploadPlan;
use vstd::prelude::*;

verus! {

/// What came back from a request.
#[derive(Debug, Clone, PartialEq, Eq)]
pub enum Reply {
    /// The service answered.
    Answer { status: u16, body: String },
    /// No answer arrived.
    NoAnswer,
}

/// How one request ended.
#[derive(Debug, Clone, PartialEq, Eq)]
pub enum Outcome {
    /// The service accepted the request; the text confirms it to the user.
    Confirmed(String),
    /// The answer was neither an acceptance nor an error.
    Unnoticed,
    /// The request failed.
    Failed(UploadError),
}

/// Where a session stands.
#[derive(Debug, Clone, Copy, PartialEq, Eq)]
pub enum Phase {
    /// The answer to the metadata request is awaited.
    Metadata,
    /// The answer to the document request is awaited.
    Documents,
    /// Nothing more is sent.
    Finished,
}

/// What the caller does next.
#[derive(Debug, Clone, Copy, PartialEq, Eq)]
pub enum Action {
    /// Send the metadata record to the metadata endpoint.
    PostMetadata,
    /// Send the documents to the document endpoint.
    PostDocuments,
    /// Stop and report the result of the session.
    Stop,
}

/// What the session makes of an answer.
#[derive(Debug, Clone, PartialEq, Eq)]
pub struct Step {
    /// How the answered request ended.
    pub outcome: Outcome,
    /// What to do next.
    pub action: Action,
}

/// An upload in progress.
#[derive(Debug, Clone, PartialEq, Eq)]
pub struct UploadSession {
    /// What is sent.
    pub plan: UploadPlan,
    /// Whether a failed metadata request ends the session. When it does not,
    /// the documents are sent whatever the metadata request came to.
    pub abort_on_metadata_failure: bool,
    /// Where the session stands.
    pub phase: Phase,
    /// The first failure so far.
    pub failure: Option<UploadError>,
}

/// The status is a success: 200 to 299.
pub open spec fn is_success(status: u16) -> bool {
    200 <= status < 300
}

/// The status is a client error: 400 to 499.
pub open spec fn is_client_error(status: u16) -> bool {
    400 <= status < 500
}

/// The status is a server error: 500 to 599.
pub open spec fn is_server_error(status: u16) -> bool {
    500 <= status < 600
}

/// The text that confirms an accepted request, given the body of the answer.
pub open spec fn confirmation(body: Seq<char>) -> Seq<char> {
    "Your package has been successfully uploaded to "@ + body + "."@
}

/// `outcome` is how a request with the answer `reply` ended: a success
/// status confirms the request, a client error fails with the body of the
/// answer, a server error or a missing answer fails without it, and any
/// other status goes unnoticed.
pub open spec fn is_outcome_of(outcome: Outcome, reply: Reply) -> bool {
    match reply {
        Reply::NoAnswer => outcome == Outcome::Failed(UploadError::RemoteServerError),
        Reply::Answer { status, body } => if is_success(status) {
            outcome matches Outcome::Confirmed(text) && text@ == confirmation(body@)
        } else if is_client_error(status) {
            outcome == Outcome::Failed(UploadError::RemoteClientError(body))
        } else if is_server_error(status) {
            outcome == Outcome::Failed(UploadError::RemoteServerError)
        } else {
            outcome == Outcome::Unnoticed
        },
    }
}

/// The phase that follows `phase` once its request has been answered.
/// `failed` tells whether that request failed.
pub open spec fn next_phase(abort_on_metadata_failure: bool, phase: Phase, failed: bool) -> Phase {
    match phase {
        Phase::Metadata => if failed && abort_on_metadata_failure {
            Phase::Finished
        } else {
            Phase::Documents
        },
        _ => Phase::Finished,
    }
}

/// The request that a phase waits for.
pub open spec fn action_of(phase: Phase) -> Action {
    match phase {
        Phase::Metadata => Action::PostMetadata,
        Phase::Documents => Action::PostDocuments,
        Phase::Finished => Action::Stop,
    }
}

/// The first failure once a request has ended with `outcome`.
pub open spec fn first_failure(before: Option<UploadError>, outcome: Outcome) -> Option<UploadError> {
    match before {
        Some(e) => Some(e),
        None => match outcome {
            Outcome::Failed(e) => Some(e),
            _ => None,
        },
    }
}

/// The two requests are independent unless the session is told otherwise:
/// the document request follows the metadata request whether that one
/// failed or not, and the session ends after the document request.
pub proof fn lemma_phases_are_independent(failed: bool)
    ensures
        next_phase(false, Phase::Metadata, failed) == Phase::Documents,
        next_phase(false, Phase::Documents, failed) == Phase::Finished,
        action_of(next_phase(false, Phase::Metadata, failed)) == Action::PostDocuments,
{
}

/// Says how a request ended, from its answer.
pub fn classify(reply: Reply) -> (outcome: Outcome)
    ensures
        is_outcome_of(outcome, reply),
{
    match reply {
        Reply::NoAnswer => Outcome::Failed(UploadError::RemoteServerError),
        Reply::Answer { status, body } => {
            if 200 <= status && status < 300 {
                let mut text = chars_of("Your package has been successfully uploaded to ");
                let mut rest = chars_of(body.as_str());
                let mut stop = chars_of(".");
                text.append(&mut rest);
                text.append(&mut stop);
                Outcome::Confirmed(string_of(&text))
            } else if 400 <= status && status < 500 {
                Outcome::Failed(UploadError::RemoteClientError(body))
            } else if 500 <= status && status < 600 {
                Outcome::Failed(UploadError::RemoteServerError)
            } else {
                Outcome::Unnoticed
            }
        },
    }
}

impl UploadSession {
    /// Starts a session that sends `plan`. The first request to send is the
    /// metadata request.
    pub fn new(plan: UploadPlan, abort_on_metadata_failure: bool) -> (session: UploadSession)
        ensures
            session.plan == plan,
            session.abort_on_metadata_failure == abort_on_metadata_failure,
            session.phase == Phase::Metadata,
            session.failure is None,
    {
        UploadSession { plan, abort_on_metadata_failure, phase: Phase::Metadata, failure: None }
    }

    /// Returns the request that the session waits for, or `Stop` when it is
    /// finished.
    pub fn pending(&self) -> (action: Action)
        ensures
            action == action_of(self.phase),
    {
        match self.phase {
            Phase::Metadata => Action::PostMetadata,
            Phase::Documents => Action::PostDocuments,
            Phase::Finished => Action::Stop,
        }
    }

    /// Takes the answer to the pending request and says what to do next.
    ///
    /// A finished session takes no answer: it stays as it is, and the step
    /// is `Unnoticed` and `Stop`. Otherwise the step says how the request
    /// ended, the session moves to the next phase and remembers the first
    /// failure.
    pub fn handle(&mut self, reply: Reply) -> (step: Step)
        ensures
            final(self).plan == old(self).plan,
            final(self).abort_on_metadata_failure == old(self).abort_on_metadata_failure,
            step.action == action_of(final(self).phase),
            old(self).phase is Finished ==> {
                &&& *final(self) == *old(self)
                &&& step.outcome == Outcome::Unnoticed
            },
            !(old(self).phase is Finished) ==> {
                &&& is_outcome_of(step.outcome, reply)
                &&& final(self).phase == next_phase(
                    old(self).abort_on_metadata_failure,
                    old(self).phase,
                    step.outcome is Failed,
                )
                &&& final(self).failure == first_failure(old(self).failure, step.outcome)
            },
    {
        if let Phase::Finished = self.phase {
            return Step { outcome: Outcome::Unnoticed, action: Action::Stop };
        }
        let outcome = classify(reply);
        let failed = match &outcome {
            Outcome::Failed(e) => {
                if self.failure.is_none() {
                    self.failure = Some(e.duplicate());
                }
                true
            },
            _ => false,
        };
        self.phase = match self.phase {
            Phase::Metadata => if failed && self.abort_on_metadata_failure {
                Phase::Finished
            } else {
                Phase::Documents
            },
            _ => Phase::Finished,
        };
        let action = self.pending();
        Step { outcome, action }
    }

    /// Returns the result of the session: its first failure, if any.
    pub fn result(&self) -> (r: Result<(), UploadError>)
        ensures
            match r {
                Ok(_) => self.failure is None,
                Err(e) => self.failure == Some(e),
            },
    {
        match &self.failure {
            None => Ok(()),
            Some(e) => Err(e.duplicate()),
        }
    }
}

} // verus!
