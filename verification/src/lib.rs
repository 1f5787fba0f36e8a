//! Creating a repository on a git hosting provider: what request to send,
//! how to read the answer, and whether to point a local remote at the result.
//!
//! Nothing here touches the network, the environment or the local checkout.
//! The caller performs the steps that [`run`] hands out and reports back what
//! happened.

pub mod cli;
pub mod git;
pub mod headers;
pub mod json;
pub mod provider;
pub mod request;
pub mod response;
pub mod text;

use crate::cli::Flags;
use crate::cli::Gitpo;
use crate::git::wire_remote;
use crate::git::wiring_of;
use crate::git::RemoteWireError;
use crate::git::RemoteWireRequest;
use crate::git::RemoteWireView;
use crate::git::Wiring;
use crate::headers::HeaderView;
use crate::headers::Headers;
use crate::provider::ConfigError;
use crate::request::configure_request;
use crate::request::request_for;
use crate::request::Request;
use crate::request::RequestView;
use crate::response::interpret;
use crate::response::outcome_of;
use crate::response::verdict;
use crate::response::OutcomeView;
use crate::response::ResponseOutcome;
use crate::response::Verdict;
use crate::text::string_view;
use vstd::prelude::*;
use vstd::string::*;

verus! {

/// Why a run ends badly.
#[derive(Clone, Copy, Debug, PartialEq, Eq)]
pub enum Failure {
    /// The provider could not process the request.
    ValidationError,
    /// The provider did not accept the token.
    Unauthorized,
    /// The provider answered with a status that is not understood.
    UnknownError { status_code: u16 },
    /// The repository was created, but the checkout did not get its remote.
    RemoteWire(RemoteWireError),
}

/// The exit code for a failure.
pub open spec fn exit_code_of(failure: Failure) -> i32 {
    match failure {
        Failure::ValidationError => 2,
        Failure::Unauthorized => 3,
        Failure::UnknownError { .. } => 42,
        Failure::RemoteWire(RemoteWireError::SshUnavailable) => 22,
        Failure::RemoteWire(RemoteWireError::AddFailed) => 404,
    }
}

/// What the user is told about a failure.
pub open spec fn message_of(failure: Failure) -> Seq<char> {
    match failure {
        Failure::ValidationError => "The provider had an issue processing this request. Perhaps the repository already exists, or you're using an unsupported option. e.g. Enabling projects on a repo in an org that has them disabled."@,
        Failure::Unauthorized => "You are unauthorized to create that repo."@,
        Failure::UnknownError { .. } => "An unknown response was sent by the provider."@,
        Failure::RemoteWire(RemoteWireError::SshUnavailable) => "Can't use ssh format with this provider."@,
        Failure::RemoteWire(RemoteWireError::AddFailed) => "Failed to add remote."@,
    }
}

impl Failure {
    /// The exit code of the process.
    pub fn exit_code(&self) -> (r: i32)
        ensures
            r == exit_code_of(*self),
            r != 0,
    {
        match self {
            Failure::ValidationError => 2,
            Failure::Unauthorized => 3,
            Failure::UnknownError { .. } => 42,
            Failure::RemoteWire(RemoteWireError::SshUnavailable) => 22,
            Failure::RemoteWire(RemoteWireError::AddFailed) => 404,
        }
    }

    /// What to tell the user.
    pub fn message(&self) -> (r: &'static str)
        ensures
            r@ == message_of(*self),
    {
        match self {
            Failure::ValidationError => "The provider had an issue processing this request. Perhaps the repository already exists, or you're using an unsupported option. e.g. Enabling projects on a repo in an org that has them disabled.",
            Failure::Unauthorized => "You are unauthorized to create that repo.",
            Failure::UnknownError { .. } => "An unknown response was sent by the provider.",
            Failure::RemoteWire(RemoteWireError::SshUnavailable) => "Can't use ssh format with this provider.",
            Failure::RemoteWire(RemoteWireError::AddFailed) => "Failed to add remote.",
        }
    }
}

/// The line that tells the user where the new repository is.
pub open spec fn announcement_text(created_url: Seq<char>) -> Seq<char> {
    "Repo created: "@ + created_url
}

/// Writes the line that tells the user where the new repository is.
pub fn announcement(created_url: &str) -> (r: String)
    ensures
        r@ == announcement_text(created_url@),
{
    let mut out = String::from_str("Repo created: ");
    out.append(created_url);
    out
}

/// What happened since the last step.
#[derive(Clone, Copy, Debug, PartialEq, Eq)]
pub enum Event<'a> {
    /// Nothing yet.
    Start,
    /// The provider answered the request.
    Response { status: u16, headers: &'a Headers },
    /// git was asked to add the remote, and did or did not.
    RemoteAdded(bool),
}

/// What to do next.
#[derive(Clone, Debug, PartialEq, Eq)]
pub enum Step {
    /// Send this request and come back with the answer.
    Send(Request),
    /// Tell the user where the repository is, then add this remote and come
    /// back with the result.
    AddRemote { created_url: String, request: RemoteWireRequest },
    /// Tell the user where the repository is, where `announce` holds its
    /// page, and end: with the failure's message and exit code where there
    /// is one, else with exit code 0.
    Finish { announce: Option<String>, failure: Option<Failure> },
}

/// What a [`Step`] stands for.
pub enum StepView {
    Send(RequestView),
    AddRemote { created_url: Seq<char>, request: RemoteWireView },
    Finish { announce: Option<Seq<char>>, failure: Option<Failure> },
}

impl View for Step {
    type V = StepView;

    open spec fn view(&self) -> StepView {
        match *self {
            Step::Send(request) => StepView::Send(request@),
            Step::AddRemote { created_url, request } => StepView::AddRemote {
                created_url: created_url@,
                request: request@,
            },
            Step::Finish { announce, failure } => StepView::Finish {
                announce: string_view(announce),
                failure,
            },
        }
    }
}

/// The step that follows an outcome. A success is announced in any case;
/// a remote is added where [`wiring_of`] says so, and where ssh cannot be
/// had the run fails. Any other outcome ends the run with its failure.
pub open spec fn step_after(outcome: OutcomeView, flags: Flags) -> StepView {
    match outcome {
        OutcomeView::Success { created_url, ssh_url } => match wiring_of(outcome, flags) {
            Wiring::Nothing => StepView::Finish { announce: Some(created_url), failure: None },
            Wiring::Add(request) => StepView::AddRemote { created_url, request },
            Wiring::SshUnavailable => StepView::Finish {
                announce: Some(created_url),
                failure: Some(Failure::RemoteWire(RemoteWireError::SshUnavailable)),
            },
        },
        OutcomeView::ValidationError => StepView::Finish {
            announce: None,
            failure: Some(Failure::ValidationError),
        },
        OutcomeView::Unauthorized => StepView::Finish {
            announce: None,
            failure: Some(Failure::Unauthorized),
        },
        OutcomeView::UnknownError { status_code } => StepView::Finish {
            announce: None,
            failure: Some(Failure::UnknownError { status_code }),
        },
    }
}

/// The step that follows git's attempt to add the remote: the run ends, as
/// a failure where git did not add it.
pub open spec fn step_after_remote(added: bool) -> StepView {
    StepView::Finish {
        announce: None,
        failure: if added {
            None
        } else {
            Some(Failure::RemoteWire(RemoteWireError::AddFailed))
        },
    }
}

/// Decides what follows an outcome.
pub fn next_step(outcome: ResponseOutcome, flags: &Flags) -> (r: Step)
    ensures
        r@ == step_after(outcome@, *flags),
{
    let wiring = wire_remote(&outcome, flags);
    match outcome {
        ResponseOutcome::Success { created_url, ssh_url } => match wiring {
            Ok(None) => Step::Finish { announce: Some(created_url), failure: None },
            Ok(Some(request)) => Step::AddRemote { created_url, request },
            Err(e) => Step::Finish {
                announce: Some(created_url),
                failure: Some(Failure::RemoteWire(e)),
            },
        },
        ResponseOutcome::ValidationError => Step::Finish {
            announce: None,
            failure: Some(Failure::ValidationError),
        },
        ResponseOutcome::Unauthorized => Step::Finish {
            announce: None,
            failure: Some(Failure::Unauthorized),
        },
        ResponseOutcome::UnknownError { status_code } => Step::Finish {
            announce: None,
            failure: Some(Failure::UnknownError { status_code }),
        },
    }
}

/// Reads the provider's answer and decides what follows. For a success the
/// provider must be one for which the page of a repository can be told.
pub fn handle_result(status: u16, headers: &Headers, config: &Gitpo, flags: &Flags) -> (r: Step)
    requires
        verdict(status) == Verdict::Success ==> config.locatable(),
    ensures
        r@ == step_after(outcome_of(status, headers@, *config), *flags),
{
    next_step(interpret(status, headers, config), flags)
}

/// What [`run`] answers to an event.
pub open spec fn run_spec(config: Gitpo, flags: Flags, event: Event) -> Result<
    StepView,
    ConfigError,
>
    recommends
        event matches Event::Response { status, .. } ==> (verdict(status) == Verdict::Success
            ==> config.locatable()),
{
    match event {
        Event::Start => match config.missing() {
            Some(e) => Err(e),
            None => Ok(StepView::Send(request_for(config, flags))),
        },
        Event::Response { status, headers } => Ok(
            step_after(outcome_of(status, headers@, config), flags),
        ),
        Event::RemoteAdded(added) => Ok(step_after_remote(added)),
    }
}

/// What a step or its refusal stands for.
pub open spec fn result_view(r: Result<Step, ConfigError>) -> Result<StepView, ConfigError> {
    match r {
        Ok(step) => Ok(step@),
        Err(e) => Err(e),
    }
}

/// Without the wish for a remote no step asks for one, whatever happened
/// before.
pub proof fn lemma_remote_only_on_request(config: Gitpo, flags: Flags, event: Event)
    requires
        !flags.set_remote,
        event matches Event::Response { status, .. } ==> (verdict(status) == Verdict::Success
            ==> config.locatable()),
    ensures
        !(run_spec(config, flags, event) matches Ok(StepView::AddRemote { .. })),
{
}

/// Where a remote for ssh was asked for and the provider has no address
/// for ssh, a successful answer is announced and the run then fails for
/// want of ssh. No remote is added, not even one with the page of the
/// repository.
pub proof fn lemma_ssh_unavailable_fails(
    status: u16,
    headers: Seq<HeaderView>,
    config: Gitpo,
    flags: Flags,
)
    requires
        verdict(status) == Verdict::Success,
        config.locatable(),
        config.ssh_text() is None,
        flags.set_remote,
        flags.ssh_remote_format,
    ensures
        step_after(outcome_of(status, headers, config), flags) == (StepView::Finish {
            announce: Some(config.created_url(headers)),
            failure: Some(Failure::RemoteWire(RemoteWireError::SshUnavailable)),
        }),
        exit_code_of(Failure::RemoteWire(RemoteWireError::SshUnavailable)) == 22,
{
}

/// One step of creating a repository. It begins with [`Event::Start`]; the
/// caller does what each step says and comes back with what happened, until
/// the step is [`Step::Finish`]. Settings that lack a name or a token are
/// refused at the start, before anything is sent. For a successful answer
/// the provider must be one for which the page of a repository can be told.
pub fn run(config: &Gitpo, flags: &Flags, event: Event) -> (r: Result<Step, ConfigError>)
    requires
        event matches Event::Response { status, .. } ==> (verdict(status) == Verdict::Success
            ==> config.locatable()),
    ensures
        result_view(r) == run_spec(*config, *flags, event),
{
    match event {
        Event::Start => match configure_request(config, flags) {
            Ok(request) => Ok(Step::Send(request)),
            Err(e) => Err(e),
        },
        Event::Response { status, headers } => Ok(handle_result(status, headers, config, flags)),
        Event::RemoteAdded(added) => Ok(
            Step::Finish {
                announce: None,
                failure: if added {
                    None
                } else {
                    Some(Failure::RemoteWire(RemoteWireError::AddFailed))
                },
            },
        ),
    }
}

} // verus!
