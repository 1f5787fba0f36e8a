//! GitLab.

use crate::headers::Headers;
use crate::json::distinct_names;
use crate::json::emitted;
use crate::json::fields_view;
use crate::json::has_member;
use crate::json::lemma_members;
use crate::json::object_text;
use crate::json::render;
use crate::json::Field;
use crate::json::FieldView;
use crate::provider::field;
use crate::provider::flag_field;
use crate::provider::optional_list;
use crate::provider::optional_list_field;
use crate::provider::optional_number;
use crate::provider::optional_number_field;
use crate::provider::optional_text;
use crate::provider::optional_text_field;
use crate::provider::toggle;
use crate::provider::Tristate;
use vstd::prelude::*;
use vstd::string::*;

verus! {

/// What to create on GitLab, and with which token.
#[derive(Clone, Debug, PartialEq, Eq)]
pub struct GitlabArgs<'a> {
    /// The personal access token. It is never part of the request body.
    pub token: &'a str,
    /// The account whose namespace receives the project, where it is known.
    /// It is never part of the request body; it serves to tell where the
    /// new project is.
    pub username: Option<&'a str>,
    pub name: Option<&'a str>,
    pub path: Option<&'a str>,
    pub visibility: Option<&'a str>,
    pub description: Option<&'a str>,
    pub issues_enabled: Tristate,
    pub wiki_enabled: Tristate,
    pub namespace_id: Option<u32>,
    pub merge_requests_enabled: Tristate,
    pub default_branch: Option<&'a str>,
    pub jobs_enabled: Tristate,
    pub snippets_enabled: Tristate,
    pub container_registry_enabled: Tristate,
    pub shared_runners_enabled: Tristate,
    pub import_url: Option<&'a str>,
    pub public_builds: Tristate,
    pub only_allow_merge_if_pipeline_succeeds: Tristate,
    pub only_allow_merge_if_all_discussions_are_resolved: Tristate,
    pub merge_method: Option<&'a str>,
    pub lfs_enabled: Tristate,
    pub request_access_enabled: Tristate,
    pub tag_list: Option<Vec<&'a str>>,
    pub printing_merge_request_link_enabled: Tristate,
    pub ci_config_path: Option<&'a str>,
    pub repository_storage: Option<&'a str>,
    pub approvals_before_merge: Option<u32>,
    pub mirror: Tristate,
    pub mirror_trigger_builds: Tristate,
    pub initialize_with_readme: Tristate,
}

/// What is reported in place of the project's page when the account is not
/// known.
pub open spec fn unknown_place() -> Seq<char> {
    "https://gitlab.com - Gitlab doesn't respond with your username or the URL to the created entity. But, it should be there. Alternatively set the GITLAB_USERNAME environment variable."@
}

impl<'a> GitlabArgs<'a> {
    /// The settings under the names of GitLab's API, in the order in which
    /// they are written.
    pub open spec fn settings(&self) -> Seq<FieldView> {
        seq![
            field("name"@, optional_text(self.name)),
            field("path"@, optional_text(self.path)),
            field("visibility"@, optional_text(self.visibility)),
            field("description"@, optional_text(self.description)),
            field("issues_enabled"@, toggle(self.issues_enabled)),
            field("wiki_enabled"@, toggle(self.wiki_enabled)),
            field("namespace_id"@, optional_number(self.namespace_id)),
            field("merge_requests_enabled"@, toggle(self.merge_requests_enabled)),
            field("default_branch"@, optional_text(self.default_branch)),
            field("jobs_enabled"@, toggle(self.jobs_enabled)),
            field("snippets_enabled"@, toggle(self.snippets_enabled)),
            field("container_registry_enabled"@, toggle(self.container_registry_enabled)),
            field("shared_runners_enabled"@, toggle(self.shared_runners_enabled)),
            field("import_url"@, optional_text(self.import_url)),
            field("public_builds"@, toggle(self.public_builds)),
            field(
                "only_allow_merge_if_pipeline_succeeds"@,
                toggle(self.only_allow_merge_if_pipeline_succeeds),
            ),
            field(
                "only_allow_merge_if_all_discussions_are_resolved"@,
                toggle(self.only_allow_merge_if_all_discussions_are_resolved),
            ),
            field("merge_method"@, optional_text(self.merge_method)),
            field("lfs_enabled"@, toggle(self.lfs_enabled)),
            field("request_access_enabled"@, toggle(self.request_access_enabled)),
            field("tag_list"@, optional_list(self.tag_list)),
            field(
                "printing_merge_request_link_enabled"@,
                toggle(self.printing_merge_request_link_enabled),
            ),
            field("ci_config_path"@, optional_text(self.ci_config_path)),
            field("repository_storage"@, optional_text(self.repository_storage)),
            field("approvals_before_merge"@, optional_number(self.approvals_before_merge)),
            field("mirror"@, toggle(self.mirror)),
            field("mirror_trigger_builds"@, toggle(self.mirror_trigger_builds)),
            field("initialize_with_readme"@, toggle(self.initialize_with_readme)),
        ]
    }

    /// Whether the settings say what the project is called: by a path or by
    /// a name.
    pub open spec fn named(&self) -> bool {
        self.path is Some || self.name is Some
    }

    /// What the project is called in addresses: its path where one was
    /// given, else its name.
    pub open spec fn project_name_text(&self) -> Seq<char>
        recommends
            self.named(),
    {
        match self.path {
            Some(p) => p@,
            None => match self.name {
                Some(n) => n@,
                None => Seq::empty(),
            },
        }
    }

    /// The page of the new project where the account is known, and a notice
    /// where it is not.
    pub open spec fn created_url(&self) -> Seq<char> {
        match self.username {
            Some(u) => "https://gitlab.com/"@ + u@ + seq!['/'] + self.project_name_text(),
            None => unknown_place(),
        }
    }

    /// The settings as fields of the request body.
    pub fn fields<'b>(&'b self) -> (r: Vec<Field<'b>>)
        ensures
            fields_view(r@) == self.settings(),
    {
        let mut v: Vec<Field<'b>> = Vec::new();
        v.push(optional_text_field("name", self.name));
        v.push(optional_text_field("path", self.path));
        v.push(optional_text_field("visibility", self.visibility));
        v.push(optional_text_field("description", self.description));
        v.push(flag_field("issues_enabled", self.issues_enabled));
        v.push(flag_field("wiki_enabled", self.wiki_enabled));
        v.push(optional_number_field("namespace_id", self.namespace_id));
        v.push(flag_field("merge_requests_enabled", self.merge_requests_enabled));
        v.push(optional_text_field("default_branch", self.default_branch));
        v.push(flag_field("jobs_enabled", self.jobs_enabled));
        v.push(flag_field("snippets_enabled", self.snippets_enabled));
        v.push(flag_field("container_registry_enabled", self.container_registry_enabled));
        v.push(flag_field("shared_runners_enabled", self.shared_runners_enabled));
        v.push(optional_text_field("import_url", self.import_url));
        v.push(flag_field("public_builds", self.public_builds));
        v.push(
            flag_field(
                "only_allow_merge_if_pipeline_succeeds",
                self.only_allow_merge_if_pipeline_succeeds,
            ),
        );
        v.push(
            flag_field(
                "only_allow_merge_if_all_discussions_are_resolved",
                self.only_allow_merge_if_all_discussions_are_resolved,
            ),
        );
        v.push(optional_text_field("merge_method", self.merge_method));
        v.push(flag_field("lfs_enabled", self.lfs_enabled));
        v.push(flag_field("request_access_enabled", self.request_access_enabled));
        v.push(optional_list_field("tag_list", &self.tag_list));
        v.push(
            flag_field(
                "printing_merge_request_link_enabled",
                self.printing_merge_request_link_enabled,
            ),
        );
        v.push(optional_text_field("ci_config_path", self.ci_config_path));
        v.push(optional_text_field("repository_storage", self.repository_storage));
        v.push(optional_number_field("approvals_before_merge", self.approvals_before_merge));
        v.push(flag_field("mirror", self.mirror));
        v.push(flag_field("mirror_trigger_builds", self.mirror_trigger_builds));
        v.push(flag_field("initialize_with_readme", self.initialize_with_readme));
        assert(fields_view(v@) =~= self.settings());
        v
    }

    /// What the project is called in addresses: its path where one was
    /// given, else its name.
    pub fn project_name(&self) -> (r: String)
        requires
            self.named(),
        ensures
            r@ == self.project_name_text(),
    {
        match self.path {
            Some(p) => String::from_str(p),
            None => match self.name {
                Some(n) => String::from_str(n),
                None => vstd::pervasive::unreached(),
            },
        }
    }

    /// The request body: a JSON object with the settings that were given a
    /// value.
    pub fn payload(&self) -> (r: String)
        ensures
            r@ == object_text(self.settings()),
    {
        render(&self.fields())
    }

    /// Where the request goes: one address for every project.
    pub fn endpoint(&self) -> (r: String)
        ensures
            r@ == "https://gitlab.com/api/v4/projects"@,
    {
        String::from_str("https://gitlab.com/api/v4/projects")
    }

    /// The page of the new project. GitLab's response does not tell it, so
    /// it is put together from the account and the project's name; without
    /// an account a notice is returned in its place.
    pub fn extract_url(&self, headers: &Headers) -> (r: String)
        requires
            self.username is Some ==> self.named(),
        ensures
            r@ == self.created_url(),
    {
        match self.username {
            Some(u) => {
                proof {
                    reveal_strlit("/");
                }
                let mut out = String::from_str("https://gitlab.com/");
                out.append(u);
                out.append("/");
                out.append(self.project_name().as_str());
                assert(out@ =~= self.created_url());
                out
            },
            None => String::from_str(
                "https://gitlab.com - Gitlab doesn't respond with your username or the URL to the created entity. But, it should be there. Alternatively set the GITLAB_USERNAME environment variable.",
            ),
        }
    }

    /// The value of the token header: the token as it is.
    pub fn token(&self) -> (r: String)
        ensures
            r@ == self.token@,
    {
        String::from_str(self.token)
    }

    /// The name of the header that carries the token.
    pub fn auth_header(&self) -> (r: String)
        ensures
            r@ == "Private-Token"@,
    {
        String::from_str("Private-Token")
    }

    /// GitLab's response gives no address for ssh.
    pub fn ssh_url(&self, headers: &Headers) -> (r: Option<String>)
        ensures
            r is None,
    {
        None
    }
}

/// No two settings of GitLab share a name.
pub proof fn lemma_names_differ(args: GitlabArgs)
    ensures
        distinct_names(args.settings()),
{
    reveal_strlit("name");
    reveal_strlit("path");
    reveal_strlit("visibility");
    reveal_strlit("description");
    reveal_strlit("issues_enabled");
    reveal_strlit("wiki_enabled");
    reveal_strlit("namespace_id");
    reveal_strlit("merge_requests_enabled");
    reveal_strlit("default_branch");
    reveal_strlit("jobs_enabled");
    reveal_strlit("snippets_enabled");
    reveal_strlit("container_registry_enabled");
    reveal_strlit("shared_runners_enabled");
    reveal_strlit("import_url");
    reveal_strlit("public_builds");
    reveal_strlit("only_allow_merge_if_pipeline_succeeds");
    reveal_strlit("only_allow_merge_if_all_discussions_are_resolved");
    reveal_strlit("merge_method");
    reveal_strlit("lfs_enabled");
    reveal_strlit("request_access_enabled");
    reveal_strlit("tag_list");
    reveal_strlit("printing_merge_request_link_enabled");
    reveal_strlit("ci_config_path");
    reveal_strlit("repository_storage");
    reveal_strlit("approvals_before_merge");
    reveal_strlit("mirror");
    reveal_strlit("mirror_trigger_builds");
    reveal_strlit("initialize_with_readme");
    let s = args.settings();
    // Names of one length differ in their first letter.
    assert(forall|i: int|
        0 <= i < s.len() ==> (#[trigger] s[i]).name.len() >= 3 && s[i].name[0] != ' ');
}

/// A setting that was left unspecified has no member in the request body,
/// and one that was given a value is a member under its name with that
/// value.
pub proof fn lemma_payload_members(args: GitlabArgs, i: int)
    requires
        0 <= i < args.settings().len(),
    ensures
        args.settings()[i].value is Unspecified ==> !has_member(
            emitted(args.settings()),
            args.settings()[i].name,
        ),
        !(args.settings()[i].value is Unspecified) ==> emitted(args.settings()).contains(
            args.settings()[i],
        ),
{
    lemma_names_differ(args);
    lemma_members(args.settings(), i);
}

} // verus!
