//! GitHub.

use crate::headers::text_of;
use crate::headers::HeaderView;
use crate::headers::Headers;
use crate::json::distinct_names;
use crate::json::emitted;
use crate::json::fields_view;
use crate::json::has_member;
use crate::json::lemma_members;
use crate::json::object_text;
use crate::json::render;
use crate::json::Field;
use crate::json::FieldView;
use crate::json::SettingView;
use crate::provider::field;
use crate::provider::flag_field;
use crate::provider::optional_number;
use crate::provider::optional_number_field;
use crate::provider::optional_text;
use crate::provider::optional_text_field;
use crate::provider::text_field;
use crate::provider::toggle;
use crate::provider::Tristate;
use crate::text::after_prefix;
use crate::text::find;
use crate::text::lemma_position_first;
use crate::text::lemma_position_found;
use crate::text::occurs_at;
use crate::text::position;
use crate::text::strip_prefix;
use crate::text::text_view;
use vstd::prelude::*;
use vstd::string::*;

verus! {

/// What to create on GitHub, and with which token.
#[derive(Clone, Copy, Debug, PartialEq, Eq)]
pub struct GithubArgs<'a> {
    pub name: &'a str,
    /// The personal access token. It is never part of the request body.
    pub token: &'a str,
    pub description: Option<&'a str>,
    pub homepage: Option<&'a str>,
    pub private: Tristate,
    pub has_issues: Tristate,
    pub has_projects: Tristate,
    pub has_wiki: Tristate,
    pub team_id: Option<u32>,
    pub auto_init: Tristate,
    pub gitignore_template: Option<&'a str>,
    pub license_template: Option<&'a str>,
    pub allow_squash_merge: Tristate,
    pub allow_merge_commit: Tristate,
    pub allow_rebase_merge: Tristate,
    /// The organisation that is to own the repository; without one it
    /// belongs to the token's user.
    pub org: Option<&'a str>,
}

/// Where the repositories of the token's user are created.
pub open spec fn user_endpoint() -> Seq<char> {
    "https://api.github.com/user/repos"@
}

/// Where the repositories of the organisation `org` are created.
pub open spec fn org_endpoint(org: Seq<char>) -> Seq<char> {
    "https://api.github.com/orgs/"@ + org + "/repos"@
}

/// Whether `url` is where the repositories of some organisation are created.
pub open spec fn org_scoped(url: Seq<char>) -> bool {
    exists|org: Seq<char>| url == #[trigger] org_endpoint(org)
}

/// Where GitHub reports the new repository when the response does not say.
pub open spec fn github_home() -> Seq<char> {
    "https://github.com"@
}

/// The page of a repository, from the address under which GitHub's API
/// reports it: the host loses the `api.` that it begins with, and the path
/// loses the `repos/` that it begins with. Nothing else changes. The host
/// begins behind the first `://`, or at the start where there is none, and
/// ends before the first `/` behind that.
pub open spec fn github_page(location: Seq<char>) -> Seq<char> {
    let mark = "://"@;
    let at = position(location, mark);
    let start = if at < location.len() {
        at + mark.len()
    } else {
        0
    };
    let scheme = location.subrange(0, start);
    let named = after_prefix(location.subrange(start, location.len() as int), "api."@);
    let slash = position(named, "/"@);
    if slash < named.len() {
        scheme + named.subrange(0, slash + 1) + after_prefix(
            named.subrange(slash + 1, named.len() as int),
            "repos/"@,
        )
    } else {
        scheme + named
    }
}

/// Turns the address that the API reports into the page of the repository.
pub fn page_of(location: &str) -> (r: String)
    ensures
        r@ == github_page(location@),
{
    let n: usize = location.unicode_len();
    let at: usize = find(location, "://");
    let mut start: usize = 0;
    if at < n {
        proof {
            lemma_position_found(location@, "://"@, 0);
        }
        start = at + "://".unicode_len();
    }
    let rest = location.substring_char(start, n);
    let named = strip_prefix(rest, "api.");
    let m: usize = named.unicode_len();
    let slash: usize = find(named, "/");
    let mut out = String::from_str(location.substring_char(0, start));
    if slash < m {
        out.append(named.substring_char(0, slash + 1));
        out.append(strip_prefix(named.substring_char(slash + 1, m), "repos/"));
    } else {
        out.append(named);
    }
    out
}

impl<'a> GithubArgs<'a> {
    /// The settings under the names of GitHub's API, in the order in which
    /// they are written.
    pub open spec fn settings(&self) -> Seq<FieldView> {
        seq![
            field("name"@, SettingView::Text(self.name@)),
            field("description"@, optional_text(self.description)),
            field("homepage"@, optional_text(self.homepage)),
            field("private"@, toggle(self.private)),
            field("has_issues"@, toggle(self.has_issues)),
            field("has_projects"@, toggle(self.has_projects)),
            field("has_wiki"@, toggle(self.has_wiki)),
            field("team_id"@, optional_number(self.team_id)),
            field("auto_init"@, toggle(self.auto_init)),
            field("gitignore_template"@, optional_text(self.gitignore_template)),
            field("license_template"@, optional_text(self.license_template)),
            field("allow_squash_merge"@, toggle(self.allow_squash_merge)),
            field("allow_merge_commit"@, toggle(self.allow_merge_commit)),
            field("allow_rebase_merge"@, toggle(self.allow_rebase_merge)),
            field("org"@, optional_text(self.org)),
        ]
    }

    /// Where the request goes: the organisation's repositories where one was
    /// named, the user's otherwise.
    pub open spec fn endpoint_text(&self) -> Seq<char> {
        match self.org {
            Some(org) => org_endpoint(org@),
            None => user_endpoint(),
        }
    }

    /// The page of the new repository: from the `Location` field of the
    /// response where that field is there and is text, else GitHub itself.
    pub open spec fn created_url(&self, headers: Seq<HeaderView>) -> Seq<char> {
        match text_of(headers, "location"@) {
            Some(location) => github_page(location),
            None => github_home(),
        }
    }

    /// The settings as fields of the request body.
    pub fn fields<'b>(&'b self) -> (r: Vec<Field<'b>>)
        ensures
            fields_view(r@) == self.settings(),
    {
        let mut v: Vec<Field<'b>> = Vec::new();
        v.push(text_field("name", self.name));
        v.push(optional_text_field("description", self.description));
        v.push(optional_text_field("homepage", self.homepage));
        v.push(flag_field("private", self.private));
        v.push(flag_field("has_issues", self.has_issues));
        v.push(flag_field("has_projects", self.has_projects));
        v.push(flag_field("has_wiki", self.has_wiki));
        v.push(optional_number_field("team_id", self.team_id));
        v.push(flag_field("auto_init", self.auto_init));
        v.push(optional_text_field("gitignore_template", self.gitignore_template));
        v.push(optional_text_field("license_template", self.license_template));
        v.push(flag_field("allow_squash_merge", self.allow_squash_merge));
        v.push(flag_field("allow_merge_commit", self.allow_merge_commit));
        v.push(flag_field("allow_rebase_merge", self.allow_rebase_merge));
        v.push(optional_text_field("org", self.org));
        assert(fields_view(v@) =~= self.settings());
        v
    }

    /// The request body: a JSON object with the settings that were given a
    /// value.
    pub fn payload(&self) -> (r: String)
        ensures
            r@ == object_text(self.settings()),
    {
        render(&self.fields())
    }

    /// Where the request goes.
    pub fn endpoint(&self) -> (r: String)
        ensures
            r@ == self.endpoint_text(),
    {
        match self.org {
            Some(org) => {
                let mut out = String::from_str("https://api.github.com/orgs/");
                out.append(org);
                out.append("/repos");
                assert(out@ =~= org_endpoint(org@));
                out
            },
            None => String::from_str("https://api.github.com/user/repos"),
        }
    }

    /// The page of the new repository, from the `Location` field of the
    /// response.
    pub fn extract_url(&self, headers: &Headers) -> (r: String)
        ensures
            r@ == self.created_url(headers@),
    {
        match headers.text("location") {
            Some(location) => page_of(location),
            None => String::from_str("https://github.com"),
        }
    }

    /// The value of the authorisation header: the word `token`, a space and
    /// the token.
    pub fn token(&self) -> (r: String)
        ensures
            r@ == "token "@ + self.token@,
    {
        let mut out = String::from_str("token ");
        out.append(self.token);
        out
    }

    /// The name of the header that carries the token.
    pub fn auth_header(&self) -> (r: String)
        ensures
            r@ == "Authorization"@,
    {
        String::from_str("Authorization")
    }

    /// GitHub's response gives no address for ssh.
    pub fn ssh_url(&self, headers: &Headers) -> (r: Option<String>)
        ensures
            r is None,
    {
        None
    }
}

/// The request goes to an organisation's repositories exactly when the
/// settings name an organisation.
pub proof fn lemma_endpoint_follows_org(args: GithubArgs)
    ensures
        org_scoped(args.endpoint_text()) <==> args.org is Some,
{
    reveal_strlit("https://api.github.com/user/repos");
    reveal_strlit("https://api.github.com/orgs/");
    reveal_strlit("/repos");
    match args.org {
        Some(org) => {
            assert(args.endpoint_text() == org_endpoint(org@));
        },
        None => {
            assert forall|org: Seq<char>| args.endpoint_text() != #[trigger] org_endpoint(org) by {
                assert(org_endpoint(org)[23] == 'o');
                assert(user_endpoint()[23] == 'u');
            }
        },
    }
}

/// Where the request goes depends on the organisation and on no other
/// setting.
pub proof fn lemma_endpoint_reads_org_only(a: GithubArgs, b: GithubArgs)
    requires
        text_view(a.org) == text_view(b.org),
    ensures
        a.endpoint_text() == b.endpoint_text(),
{
}

/// For an address on a host that begins with `api.` and a path that begins
/// with `repos/`, the page is the same address without the two. What
/// follows `repos/` is kept as it is, whatever it holds.
pub proof fn lemma_page_of_api_host(host: Seq<char>, path: Seq<char>)
    requires
        forall|i: int| 0 <= i < host.len() ==> host[i] != '/',
    ensures
        github_page("https://api."@ + host + "/repos/"@ + path) == "https://"@ + host + seq!['/']
            + path,
{
    reveal_strlit("https://api.");
    reveal_strlit("https://");
    reveal_strlit("/repos/");
    reveal_strlit("://");
    reveal_strlit("api.");
    reveal_strlit("repos/");
    reveal_strlit("/");
    let mark = "://"@;
    let api = "api."@;
    let repos = "repos/"@;
    let location = "https://api."@ + host + "/repos/"@ + path;
    assert forall|i: int| 0 <= i < 5 implies !occurs_at(location, i, mark) by {
        if occurs_at(location, i, mark) {
            assert(location.subrange(i, i + 3)[0] == ':');
        }
    }
    assert(location.subrange(5, 8) =~= mark);
    lemma_position_first(location, mark, 0, 5);
    let rest = location.subrange(8, location.len() as int);
    assert(rest.subrange(0, 4) =~= api);
    let named = rest.subrange(4, rest.len() as int);
    assert(named =~= host + "/repos/"@ + path);
    let slash = host.len() as int;
    assert forall|i: int| 0 <= i < slash implies !occurs_at(named, i, "/"@) by {
        if occurs_at(named, i, "/"@) {
            assert(named.subrange(i, i + 1)[0] == '/');
        }
    }
    assert(named.subrange(slash, slash + 1) =~= "/"@);
    lemma_position_first(named, "/"@, 0, slash);
    let behind = named.subrange(slash + 1, named.len() as int);
    assert(behind =~= repos + path);
    assert(behind.subrange(0, 6) =~= repos);
    assert(behind.subrange(6, behind.len() as int) =~= path);
    assert(location.subrange(0, 8) =~= "https://"@);
    assert(named.subrange(0, slash + 1) =~= host + seq!['/']);
}

/// For the address under which GitHub's API reports a repository, the page
/// is the same path on GitHub itself, whatever the path holds.
pub proof fn lemma_page_of_api_address(path: Seq<char>)
    ensures
        github_page("https://api.github.com/repos/"@ + path) == "https://github.com/"@ + path,
{
    reveal_strlit("https://api.github.com/repos/");
    reveal_strlit("https://github.com/");
    reveal_strlit("https://api.");
    reveal_strlit("https://");
    reveal_strlit("/repos/");
    let host = seq!['g', 'i', 't', 'h', 'u', 'b', '.', 'c', 'o', 'm'];
    lemma_page_of_api_host(host, path);
    assert("https://api.github.com/repos/"@ + path =~= "https://api."@ + host + "/repos/"@
        + path);
    assert("https://github.com/"@ + path =~= "https://"@ + host + seq!['/'] + path);
}

/// No two settings of GitHub share a name.
pub proof fn lemma_names_differ(args: GithubArgs)
    ensures
        distinct_names(args.settings()),
{
    reveal_strlit("name");
    reveal_strlit("description");
    reveal_strlit("homepage");
    reveal_strlit("private");
    reveal_strlit("has_issues");
    reveal_strlit("has_projects");
    reveal_strlit("has_wiki");
    reveal_strlit("team_id");
    reveal_strlit("auto_init");
    reveal_strlit("gitignore_template");
    reveal_strlit("license_template");
    reveal_strlit("allow_squash_merge");
    reveal_strlit("allow_merge_commit");
    reveal_strlit("allow_rebase_merge");
    reveal_strlit("org");
    let s = args.settings();
    // Names of one length differ in their first, second or seventh letter.
    assert(forall|i: int| 0 <= i < s.len() ==> (#[trigger] s[i]).name.len() >= 3);
    assert(s[2].name[1] != s[6].name[1]);
    assert(s[3].name[0] != s[7].name[0]);
    assert(s[9].name[0] != s[11].name[0]);
    assert(s[11].name[6] != s[12].name[6]);
    assert(s[11].name[6] != s[13].name[6]);
    assert(s[12].name[6] != s[13].name[6]);
}

/// A setting that was left unspecified has no member in the request body,
/// and one that was given a value is a member under its name with that
/// value.
pub proof fn lemma_payload_members(args: GithubArgs, i: int)
    requires
        0 <= i < args.settings().len(),
    ensures
        args.settings()[i].value is Unspecified ==> !has_member(
            emitted(args.settings()),
            args.settings()[i].name,
        ),
        !(args.settings()[i].value is Unspecified) ==> emitted(args.settings()).contains(
            args.settings()[i],
        ),
{
    lemma_names_differ(args);
    lemma_members(args.settings(), i);
}

} // verus!
