//! The choice of provider, and the options that hold for every provider.

use crate::headers::HeaderView;
use crate::headers::Headers;
use crate::provider::azure::bearer_text;
use crate::provider::azure::AzureArgs;
use crate::provider::bitbucket::BitbucketArgs;
use crate::provider::github::GithubArgs;
use crate::provider::gitlab::GitlabArgs;
use crate::provider::ConfigError;
use crate::json::object_text;
use crate::text::string_view;
use vstd::prelude::*;
use vstd::string::*;

verus! {

/// The provider that was chosen, with its settings.
#[derive(Clone, Debug, PartialEq, Eq)]
pub enum Gitpo<'a> {
    Github(GithubArgs<'a>),
    Gitlab(GitlabArgs<'a>),
    BitBucket(BitbucketArgs<'a>),
    Azure(AzureArgs),
}

/// The options that hold whatever the provider.
#[derive(Clone, Copy, Debug, PartialEq, Eq)]
pub struct Flags<'a> {
    /// An address that takes the place of the provider's own.
    pub endpoint: Option<&'a str>,
    /// Whether the local checkout is to get a remote for the new
    /// repository.
    pub set_remote: bool,
    /// The name of that remote.
    pub remote_name: &'a str,
    /// Whether that remote is to hold the address for ssh.
    pub ssh_remote_format: bool,
}

impl<'a> Flags<'a> {
    /// No custom address, no remote; a remote would be called `origin`.
    pub fn new() -> (r: Flags<'static>)
        ensures
            r.endpoint is None,
            !r.set_remote,
            r.remote_name@ == "origin"@,
            !r.ssh_remote_format,
    {
        Flags { endpoint: None, set_remote: false, remote_name: "origin", ssh_remote_format: false }
    }
}

impl<'a> Gitpo<'a> {
    /// The request body.
    pub open spec fn payload_text(&self) -> Seq<char> {
        match *self {
            Gitpo::Github(a) => object_text(a.settings()),
            Gitpo::Gitlab(a) => object_text(a.settings()),
            Gitpo::BitBucket(a) => object_text(a.settings()),
            Gitpo::Azure(a) => object_text(a.settings()),
        }
    }

    /// Where the provider takes the request.
    pub open spec fn endpoint_text(&self) -> Seq<char> {
        match *self {
            Gitpo::Github(a) => a.endpoint_text(),
            Gitpo::Gitlab(a) => "https://gitlab.com/api/v4/projects"@,
            Gitpo::BitBucket(a) => a.endpoint_text(),
            Gitpo::Azure(a) => a.endpoint_text(),
        }
    }

    /// What the settings lack for a request, if anything: GitLab needs a
    /// name or a path, Azure Repos a token.
    pub open spec fn missing(&self) -> Option<ConfigError> {
        match *self {
            Gitpo::Github(a) => None,
            Gitpo::Gitlab(a) => if a.named() {
                None
            } else {
                Some(ConfigError::MissingName)
            },
            Gitpo::BitBucket(a) => None,
            Gitpo::Azure(a) => if a.azure_code_response is Some {
                None
            } else {
                Some(ConfigError::MissingToken)
            },
        }
    }

    /// Whether the settings hold a token. Only those of Azure Repos can be
    /// without one.
    pub open spec fn has_token(&self) -> bool {
        !(*self matches Gitpo::Azure(a) && a.azure_code_response is None)
    }

    /// The value of the header that carries the token.
    pub open spec fn token_text(&self) -> Seq<char>
        recommends
            self.has_token(),
    {
        match *self {
            Gitpo::Github(a) => "token "@ + a.token@,
            Gitpo::Gitlab(a) => a.token@,
            Gitpo::BitBucket(a) => a.token_text(),
            Gitpo::Azure(a) => match a.azure_code_response {
                Some(t) => bearer_text(t@),
                None => Seq::empty(),
            },
        }
    }

    /// The name of the header that carries the token.
    pub open spec fn auth_header_text(&self) -> Seq<char> {
        match *self {
            Gitpo::Github(a) => "Authorization"@,
            Gitpo::Gitlab(a) => "Private-Token"@,
            Gitpo::BitBucket(a) => "Authorization"@,
            Gitpo::Azure(a) => "Authorization"@,
        }
    }

    /// Whether the page of a new repository can be told. For Azure Repos it
    /// cannot; for GitLab with a known account the project must have a
    /// name.
    pub open spec fn locatable(&self) -> bool {
        match *self {
            Gitpo::Github(a) => true,
            Gitpo::Gitlab(a) => a.username is Some ==> a.named(),
            Gitpo::BitBucket(a) => true,
            Gitpo::Azure(a) => false,
        }
    }

    /// The page of the new repository.
    pub open spec fn created_url(&self, headers: Seq<HeaderView>) -> Seq<char>
        recommends
            self.locatable(),
    {
        match *self {
            Gitpo::Github(a) => a.created_url(headers),
            Gitpo::Gitlab(a) => a.created_url(),
            Gitpo::BitBucket(a) => a.created_url(),
            Gitpo::Azure(a) => Seq::empty(),
        }
    }

    /// The address of the new repository for ssh, where the provider has
    /// one: only Bitbucket does.
    pub open spec fn ssh_text(&self) -> Option<Seq<char>> {
        match *self {
            Gitpo::Github(a) => None,
            Gitpo::Gitlab(a) => None,
            Gitpo::BitBucket(a) => Some(a.ssh_text()),
            Gitpo::Azure(a) => None,
        }
    }

    /// The request body.
    pub fn payload(&self) -> (r: String)
        ensures
            r@ == self.payload_text(),
    {
        match self {
            Gitpo::Github(a) => a.payload(),
            Gitpo::Gitlab(a) => a.payload(),
            Gitpo::BitBucket(a) => a.payload(),
            Gitpo::Azure(a) => a.payload(),
        }
    }

    /// Where the provider takes the request.
    pub fn endpoint(&self) -> (r: String)
        ensures
            r@ == self.endpoint_text(),
    {
        match self {
            Gitpo::Github(a) => a.endpoint(),
            Gitpo::Gitlab(a) => a.endpoint(),
            Gitpo::BitBucket(a) => a.endpoint(),
            Gitpo::Azure(a) => a.endpoint(),
        }
    }

    /// Says what the settings lack for a request, if anything.
    pub fn check(&self) -> (r: Result<(), ConfigError>)
        ensures
            match self.missing() {
                Some(e) => r == Err::<(), ConfigError>(e),
                None => r is Ok,
            },
    {
        match self {
            Gitpo::Github(_) => Ok(()),
            Gitpo::Gitlab(a) => {
                if a.path.is_some() || a.name.is_some() {
                    Ok(())
                } else {
                    Err(ConfigError::MissingName)
                }
            },
            Gitpo::BitBucket(_) => Ok(()),
            Gitpo::Azure(a) => {
                if a.azure_code_response.is_some() {
                    Ok(())
                } else {
                    Err(ConfigError::MissingToken)
                }
            },
        }
    }

    /// The value of the header that carries the token. Only Azure Repos can
    /// be without a token.
    pub fn token(&self) -> (r: Result<String, ConfigError>)
        ensures
            self.has_token() ==> (r matches Ok(v) && v@ == self.token_text()),
            !self.has_token() ==> r == Err::<String, ConfigError>(ConfigError::MissingToken),
    {
        match self {
            Gitpo::Github(a) => Ok(a.token()),
            Gitpo::Gitlab(a) => Ok(a.token()),
            Gitpo::BitBucket(a) => Ok(a.token()),
            Gitpo::Azure(a) => a.token(),
        }
    }

    /// The name of the header that carries the token.
    pub fn auth_header(&self) -> (r: String)
        ensures
            r@ == self.auth_header_text(),
    {
        match self {
            Gitpo::Github(a) => a.auth_header(),
            Gitpo::Gitlab(a) => a.auth_header(),
            Gitpo::BitBucket(a) => a.auth_header(),
            Gitpo::Azure(a) => a.auth_header(),
        }
    }

    /// Whether the page of a new repository can be told.
    pub fn can_extract_url(&self) -> (r: bool)
        ensures
            r == self.locatable(),
    {
        match self {
            Gitpo::Github(_) => true,
            Gitpo::Gitlab(a) => a.username.is_none() || a.path.is_some() || a.name.is_some(),
            Gitpo::BitBucket(_) => true,
            Gitpo::Azure(_) => false,
        }
    }

    /// The page of the new repository.
    pub fn extract_url(&self, headers: &Headers) -> (r: String)
        requires
            self.locatable(),
        ensures
            r@ == self.created_url(headers@),
    {
        match self {
            Gitpo::Github(a) => a.extract_url(headers),
            Gitpo::Gitlab(a) => a.extract_url(headers),
            Gitpo::BitBucket(a) => a.extract_url(headers),
            Gitpo::Azure(_) => vstd::pervasive::unreached(),
        }
    }

    /// The address of the new repository for ssh, where the provider has
    /// one.
    pub fn ssh_url(&self, headers: &Headers) -> (r: Option<String>)
        ensures
            string_view(r) == self.ssh_text(),
    {
        match self {
            Gitpo::Github(a) => a.ssh_url(headers),
            Gitpo::Gitlab(a) => a.ssh_url(headers),
            Gitpo::BitBucket(a) => a.ssh_url(headers),
            Gitpo::Azure(a) => a.ssh_url(headers),
        }
    }
}

} // verus!
