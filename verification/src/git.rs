//! Whether the local checkout gets a remote for the new repository, and
//! which.

use crate::cli::Flags;
use crate::response::OutcomeView;
use crate::response::ResponseOutcome;
use crate::text::begins_with;
use crate::text::occurs_at;
use vstd::prelude::*;
use vstd::string::*;

verus! {

/// A remote to add to the local checkout.
#[derive(Clone, Debug, PartialEq, Eq)]
pub struct RemoteWireRequest {
    pub remote_name: String,
    pub url: String,
}

/// What a [`RemoteWireRequest`] stands for.
pub struct RemoteWireView {
    pub remote_name: Seq<char>,
    pub url: Seq<char>,
}

impl View for RemoteWireRequest {
    type V = RemoteWireView;

    open spec fn view(&self) -> RemoteWireView {
        RemoteWireView { remote_name: self.remote_name@, url: self.url@ }
    }
}

/// Why the local checkout did not get its remote. The repository was
/// created all the same.
#[derive(Clone, Copy, Debug, PartialEq, Eq)]
pub enum RemoteWireError {
    /// An address for ssh was asked for, and the provider has none.
    SshUnavailable,
    /// git did not add the remote.
    AddFailed,
}

/// What to do about the remote.
pub enum Wiring {
    /// Leave the checkout alone.
    Nothing,
    /// Add this remote.
    Add(RemoteWireView),
    /// Give up: ssh was asked for and cannot be had.
    SshUnavailable,
}

/// What to do about the remote after an answer. Only a success can lead to
/// a remote, and only where one was asked for. Where ssh was asked for, the
/// remote holds the address for ssh or is not added at all; else it holds
/// the page of the repository.
pub open spec fn wiring_of(outcome: OutcomeView, flags: Flags) -> Wiring {
    match outcome {
        OutcomeView::Success { created_url, ssh_url } => if !flags.set_remote {
            Wiring::Nothing
        } else if !flags.ssh_remote_format {
            Wiring::Add(RemoteWireView { remote_name: flags.remote_name@, url: created_url })
        } else {
            match ssh_url {
                Some(url) => Wiring::Add(RemoteWireView { remote_name: flags.remote_name@, url }),
                None => Wiring::SshUnavailable,
            }
        },
        _ => Wiring::Nothing,
    }
}

/// What a decision about the remote stands for.
pub open spec fn wiring_view(r: Result<Option<RemoteWireRequest>, RemoteWireError>) -> Wiring
    recommends
        r != Err::<Option<RemoteWireRequest>, RemoteWireError>(RemoteWireError::AddFailed),
{
    match r {
        Ok(None) => Wiring::Nothing,
        Ok(Some(request)) => Wiring::Add(request@),
        Err(_) => Wiring::SshUnavailable,
    }
}

/// Decides whether a remote is added, and which.
pub fn wire_remote(outcome: &ResponseOutcome, flags: &Flags) -> (r: Result<
    Option<RemoteWireRequest>,
    RemoteWireError,
>)
    ensures
        wiring_view(r) == wiring_of(outcome@, *flags),
        r is Err ==> r == Err::<Option<RemoteWireRequest>, RemoteWireError>(
            RemoteWireError::SshUnavailable,
        ),
{
    match outcome {
        ResponseOutcome::Success { created_url, ssh_url } => {
            if !flags.set_remote {
                Ok(None)
            } else if !flags.ssh_remote_format {
                Ok(
                    Some(
                        RemoteWireRequest {
                            remote_name: String::from_str(flags.remote_name),
                            url: created_url.clone(),
                        },
                    ),
                )
            } else {
                match ssh_url {
                    Some(url) => Ok(
                        Some(
                            RemoteWireRequest {
                                remote_name: String::from_str(flags.remote_name),
                                url: url.clone(),
                            },
                        ),
                    ),
                    None => Err(RemoteWireError::SshUnavailable),
                }
            }
        },
        _ => Ok(None),
    }
}

/// Without the wish for a remote nothing is added, whatever the answer was.
pub proof fn lemma_no_remote_unasked(outcome: OutcomeView, flags: Flags)
    requires
        !flags.set_remote,
    ensures
        wiring_of(outcome, flags) == Wiring::Nothing,
{
}

/// Where a remote for ssh was asked for and the provider gave no address
/// for ssh, no remote is added: not one with the page of the repository
/// either.
pub proof fn lemma_ssh_is_not_replaced(created_url: Seq<char>, flags: Flags)
    requires
        flags.set_remote,
        flags.ssh_remote_format,
    ensures
        wiring_of((OutcomeView::Success { created_url, ssh_url: None }), flags)
            == Wiring::SshUnavailable,
{
}

/// Whether a remote may be added, from what `git remote get-url` wrote to
/// its error stream for the remote's name: git was run, wrote text, and
/// that text begins with `fatal`, which says that no such remote exists
/// yet.
pub fn can_create_remote(stderr: Option<&str>) -> (r: bool)
    ensures
        r == (stderr matches Some(text) && occurs_at(text@, 0, "fatal"@)),
{
    match stderr {
        Some(text) => begins_with(text, "fatal"),
        None => false,
    }
}

} // verus!
