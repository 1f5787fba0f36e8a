//! The request that creates a repository.

use crate::cli::Flags;
use crate::cli::Gitpo;
use crate::provider::ConfigError;
use vstd::prelude::*;
use vstd::string::*;

verus! {

/// How a request is made. Creating a repository is always a `POST`.
#[derive(Clone, Copy, Debug, PartialEq, Eq)]
pub enum Method {
    Post,
}

/// A request, ready to be sent.
#[derive(Clone, Debug, PartialEq, Eq)]
pub struct Request {
    pub method: Method,
    pub url: String,
    pub body: String,
    /// The header fields, each a name and a value, in the order in which
    /// they are set.
    pub headers: Vec<(String, String)>,
}

/// What a [`Request`] stands for.
pub struct RequestView {
    pub method: Method,
    pub url: Seq<char>,
    pub body: Seq<char>,
    pub headers: Seq<(Seq<char>, Seq<char>)>,
}

impl View for Request {
    type V = RequestView;

    open spec fn view(&self) -> RequestView {
        RequestView {
            method: self.method,
            url: self.url@,
            body: self.body@,
            headers: Seq::new(
                self.headers@.len(),
                |i: int| (self.headers@[i].0@, self.headers@[i].1@),
            ),
        }
    }
}

/// Where the request goes: the address from the options where there is one,
/// whatever the provider would compute; else the provider's own.
pub open spec fn target(config: Gitpo, flags: Flags) -> Seq<char> {
    match flags.endpoint {
        Some(e) => e@,
        None => config.endpoint_text(),
    }
}

/// The request for the given settings: a `POST` to the target with the
/// provider's body, announced as JSON, and the provider's token header.
pub open spec fn request_for(config: Gitpo, flags: Flags) -> RequestView {
    RequestView {
        method: Method::Post,
        url: target(config, flags),
        body: config.payload_text(),
        headers: seq![
            ("Content-Type"@, "application/json"@),
            (config.auth_header_text(), config.token_text()),
        ],
    }
}

/// An address from the options is where the request goes, for every
/// provider and whatever its settings.
pub proof fn lemma_custom_endpoint_wins(config: Gitpo, flags: Flags)
    requires
        flags.endpoint is Some,
    ensures
        request_for(config, flags).url == flags.endpoint->0@,
{
}

/// Builds the request that creates the repository. Nothing is sent.
/// Settings that lack a name or a token give no request.
pub fn configure_request(config: &Gitpo, flags: &Flags) -> (r: Result<Request, ConfigError>)
    ensures
        match config.missing() {
            Some(e) => r == Err::<Request, ConfigError>(e),
            None => r matches Ok(request) && request@ == request_for(*config, *flags),
        },
{
    match config.check() {
        Err(e) => Err(e),
        Ok(()) => {
            let url = match flags.endpoint {
                Some(e) => String::from_str(e),
                None => config.endpoint(),
            };
            let body = config.payload();
            match config.token() {
                Err(e) => Err(e),
                Ok(token) => {
                    let mut headers: Vec<(String, String)> = Vec::new();
                    headers.push(
                        (String::from_str("Content-Type"), String::from_str("application/json")),
                    );
                    headers.push((config.auth_header(), token));
                    let request = Request { method: Method::Post, url, body, headers };
                    assert(request@.headers =~= request_for(*config, *flags).headers);
                    Ok(request)
                },
            }
        },
    }
}

} // verus!
