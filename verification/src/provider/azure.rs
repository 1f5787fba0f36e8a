//! Azure Repos.

use crate::headers::Headers;
use crate::json::distinct_names;
use crate::json::emitted;
use crate::json::fields_view;
use crate::json::has_member;
use crate::json::lemma_members;
use crate::json::object_text;
use crate::json::render;
use crate::json::Field;
use crate::json::FieldView;
use crate::json::SettingView;
use crate::provider::field;
use crate::provider::optional_number;
use crate::provider::optional_number_field;
use crate::provider::text_field;
use crate::provider::ConfigError;
use vstd::prelude::*;
use vstd::string::*;

verus! {

/// What to create on Azure Repos, where, and with which token.
#[derive(Clone, Debug, PartialEq, Eq)]
pub struct AzureArgs {
    /// The name or id of the project that receives the repository. Empty
    /// where the organisation's default is meant.
    pub project: String,
    /// The access token, where one was obtained. It is never part of the
    /// request body.
    pub azure_code_response: Option<String>,
    /// The secret of the application that obtains tokens. It serves the
    /// caller's exchange for a token and is never part of the request body.
    pub azure_app_secret: Option<String>,
    /// The refs to take over when the repository is created as a fork. It
    /// is part of the address, not of the request body.
    pub source_ref: Option<String>,
    pub team_id: Option<u32>,
    /// The organisation. It is part of the address, not of the request
    /// body.
    pub org: String,
    /// An address that takes the place of the computed one.
    pub custom_endpoint: Option<String>,
}

/// The value of a bearer authorisation header for a token.
pub open spec fn bearer_text(token: Seq<char>) -> Seq<char> {
    "Bearer "@ + token
}

impl AzureArgs {
    /// The settings under the names that are sent, in the order in which
    /// they are written.
    pub open spec fn settings(&self) -> Seq<FieldView> {
        seq![
            field("project"@, SettingView::Text(self.project@)),
            field("team_id"@, optional_number(self.team_id)),
        ]
    }

    /// The part of the address that names the project: nothing for an empty
    /// project, else a slash and the project.
    pub open spec fn project_part(&self) -> Seq<char> {
        if self.project@.len() == 0 {
            Seq::empty()
        } else {
            seq!['/'] + self.project@
        }
    }

    /// The part of the address that names the refs of a fork.
    pub open spec fn source_part(&self) -> Seq<char> {
        match self.source_ref {
            Some(r) => "&sourceRef="@ + r@,
            None => Seq::empty(),
        }
    }

    /// Where the request goes: the custom address where one was given, else
    /// the repositories of the project in the organisation.
    pub open spec fn endpoint_text(&self) -> Seq<char> {
        match self.custom_endpoint {
            Some(e) => e@,
            None => "https://dev.azure.com/"@ + self.org@ + self.project_part()
                + "/_apis/git/repositories?api-version=5.0"@ + self.source_part(),
        }
    }

    /// The settings as fields of the request body.
    pub fn fields<'b>(&'b self) -> (r: Vec<Field<'b>>)
        ensures
            fields_view(r@) == self.settings(),
    {
        let mut v: Vec<Field<'b>> = Vec::new();
        v.push(text_field("project", self.project.as_str()));
        v.push(optional_number_field("team_id", self.team_id));
        assert(fields_view(v@) =~= self.settings());
        v
    }

    /// The request body: a JSON object with the settings that were given a
    /// value.
    pub fn payload(&self) -> (r: String)
        ensures
            r@ == object_text(self.settings()),
    {
        render(&self.fields())
    }

    /// Where the request goes.
    pub fn endpoint(&self) -> (r: String)
        ensures
            r@ == self.endpoint_text(),
    {
        match &self.custom_endpoint {
            Some(e) => e.clone(),
            None => {
                proof {
                    reveal_strlit("/");
                }
                let mut out = String::from_str("https://dev.azure.com/");
                out.append(self.org.as_str());
                if !self.project.as_str().is_empty() {
                    out.append("/");
                    out.append(self.project.as_str());
                }
                assert(out@ =~= "https://dev.azure.com/"@ + self.org@ + self.project_part());
                out.append("/_apis/git/repositories?api-version=5.0");
                match &self.source_ref {
                    Some(r) => {
                        out.append("&sourceRef=");
                        out.append(r.as_str());
                    },
                    None => {},
                }
                assert(out@ =~= self.endpoint_text());
                out
            },
        }
    }

    /// The value of the authorisation header: `Bearer`, a space and the
    /// access token. Without a token there is none.
    pub fn token(&self) -> (r: Result<String, ConfigError>)
        ensures
            match self.azure_code_response {
                Some(t) => r matches Ok(v) && v@ == bearer_text(t@),
                None => r == Err::<String, ConfigError>(ConfigError::MissingToken),
            },
    {
        match &self.azure_code_response {
            Some(t) => {
                let mut out = String::from_str("Bearer ");
                out.append(t.as_str());
                Ok(out)
            },
            None => Err(ConfigError::MissingToken),
        }
    }

    /// The name of the header that carries the token.
    pub fn auth_header(&self) -> (r: String)
        ensures
            r@ == "Authorization"@,
    {
        String::from_str("Authorization")
    }

    /// The response to a creation gives no address for ssh.
    pub fn ssh_url(&self, headers: &Headers) -> (r: Option<String>)
        ensures
            r is None,
    {
        None
    }
}

/// No two settings of Azure Repos share a name.
pub proof fn lemma_names_differ(args: AzureArgs)
    ensures
        distinct_names(args.settings()),
{
    reveal_strlit("project");
    reveal_strlit("team_id");
    let s = args.settings();
    // Names of one length differ in their first letter.
    assert(forall|i: int|
        0 <= i < s.len() ==> (#[trigger] s[i]).name.len() >= 3 && s[i].name[0] != ' ');
}

/// A setting that was left unspecified has no member in the request body,
/// and one that was given a value is a member under its name with that
/// value.
pub proof fn lemma_payload_members(args: AzureArgs, i: int)
    requires
        0 <= i < args.settings().len(),
    ensures
        args.settings()[i].value is Unspecified ==> !has_member(
            emitted(args.settings()),
            args.settings()[i].name,
        ),
        !(args.settings()[i].value is Unspecified) ==> emitted(args.settings()).contains(
            args.settings()[i],
        ),
{
    lemma_names_differ(args);
    lemma_members(args.settings(), i);
}

} // verus!
