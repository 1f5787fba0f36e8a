//! Reading the provider's answer.

use crate::cli::Gitpo;
use crate::headers::HeaderView;
use crate::headers::Headers;
use crate::text::string_view;
use vstd::prelude::*;
use vstd::string::*;

verus! {

/// What the provider's answer means.
#[derive(Clone, Debug, PartialEq, Eq)]
pub enum ResponseOutcome {
    /// The repository exists now.
    Success {
        /// Its page.
        created_url: String,
        /// Its address for ssh, where the provider has one.
        ssh_url: Option<String>,
    },
    /// The provider could not process the request: the name may be taken,
    /// or an option may not be available.
    ValidationError,
    /// The token was not accepted.
    Unauthorized,
    /// Any other answer.
    UnknownError { status_code: u16 },
}

/// What a [`ResponseOutcome`] stands for.
pub enum OutcomeView {
    Success { created_url: Seq<char>, ssh_url: Option<Seq<char>> },
    ValidationError,
    Unauthorized,
    UnknownError { status_code: u16 },
}

impl View for ResponseOutcome {
    type V = OutcomeView;

    open spec fn view(&self) -> OutcomeView {
        match *self {
            ResponseOutcome::Success { created_url, ssh_url } => OutcomeView::Success {
                created_url: created_url@,
                ssh_url: string_view(ssh_url),
            },
            ResponseOutcome::ValidationError => OutcomeView::ValidationError,
            ResponseOutcome::Unauthorized => OutcomeView::Unauthorized,
            ResponseOutcome::UnknownError { status_code } => OutcomeView::UnknownError {
                status_code,
            },
        }
    }
}

/// The four kinds of answer.
#[derive(Clone, Copy, Debug, PartialEq, Eq)]
pub enum Verdict {
    Success,
    ValidationError,
    Unauthorized,
    UnknownError,
}

/// The kind of answer that a status code stands for: 200 and 201 are a
/// success, 400 and 422 a validation error, 401 is unauthorized, and every
/// other code is unknown.
pub open spec fn verdict(status: u16) -> Verdict {
    if status == 200 || status == 201 {
        Verdict::Success
    } else if status == 400 || status == 422 {
        Verdict::ValidationError
    } else if status == 401 {
        Verdict::Unauthorized
    } else {
        Verdict::UnknownError
    }
}

/// The kind of an outcome.
pub open spec fn kind(outcome: OutcomeView) -> Verdict {
    match outcome {
        OutcomeView::Success { .. } => Verdict::Success,
        OutcomeView::ValidationError => Verdict::ValidationError,
        OutcomeView::Unauthorized => Verdict::Unauthorized,
        OutcomeView::UnknownError { .. } => Verdict::UnknownError,
    }
}

/// What an answer with the given status and header fields means when it
/// came from the given provider. Only the addresses of a success depend on
/// the provider.
pub open spec fn outcome_of(status: u16, headers: Seq<HeaderView>, config: Gitpo) -> OutcomeView
    recommends
        verdict(status) == Verdict::Success ==> config.locatable(),
{
    match verdict(status) {
        Verdict::Success => OutcomeView::Success {
            created_url: config.created_url(headers),
            ssh_url: config.ssh_text(),
        },
        Verdict::ValidationError => OutcomeView::ValidationError,
        Verdict::Unauthorized => OutcomeView::Unauthorized,
        Verdict::UnknownError => OutcomeView::UnknownError { status_code: status },
    }
}

/// Tells the kind of answer from its status code.
pub fn classify(status: u16) -> (r: Verdict)
    ensures
        r == verdict(status),
{
    if status == 200 || status == 201 {
        Verdict::Success
    } else if status == 400 || status == 422 {
        Verdict::ValidationError
    } else if status == 401 {
        Verdict::Unauthorized
    } else {
        Verdict::UnknownError
    }
}

/// Reads the provider's answer. For a success the provider must be one for
/// which the page of a repository can be told.
pub fn interpret(status: u16, headers: &Headers, config: &Gitpo) -> (r: ResponseOutcome)
    requires
        verdict(status) == Verdict::Success ==> config.locatable(),
    ensures
        r@ == outcome_of(status, headers@, *config),
        kind(r@) == verdict(status),
{
    match classify(status) {
        Verdict::Success => ResponseOutcome::Success {
            created_url: config.extract_url(headers),
            ssh_url: config.ssh_url(headers),
        },
        Verdict::ValidationError => ResponseOutcome::ValidationError,
        Verdict::Unauthorized => ResponseOutcome::Unauthorized,
        Verdict::UnknownError => ResponseOutcome::UnknownError { status_code: status },
    }
}

/// The kind of an answer follows from its status code alone: whichever
/// provider sent it and whatever its header fields, the same code gives the
/// same kind, and an unknown answer keeps its code. A success is read only
/// for providers for which the page of a repository can be told.
pub proof fn lemma_kind_ignores_provider(
    status: u16,
    headers: Seq<HeaderView>,
    config: Gitpo,
    other_headers: Seq<HeaderView>,
    other: Gitpo,
)
    requires
        verdict(status) == Verdict::Success ==> config.locatable() && other.locatable(),
    ensures
        kind(outcome_of(status, headers, config)) == verdict(status),
        kind(outcome_of(status, headers, config)) == kind(
            outcome_of(status, other_headers, other),
        ),
        verdict(status) != Verdict::Success ==> outcome_of(status, headers, config) == outcome_of(
            status,
            other_headers,
            other,
        ),
        verdict(status) == Verdict::UnknownError ==> outcome_of(status, headers, config)
            == (OutcomeView::UnknownError { status_code: status }),
{
}

} // verus!
