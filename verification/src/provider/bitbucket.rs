//! Bitbucket.

use crate::headers::Headers;
use crate::json::distinct_names;
use crate::json::emitted;
use crate::json::fields_view;
use crate::json::has_member;
use crate::json::lemma_members;
use crate::json::object_text;
use crate::json::render;
use crate::json::Field;
use crate::json::FieldView;
use crate::json::SettingView;
use crate::provider::field;
use crate::provider::flag_field;
use crate::provider::optional_text;
use crate::provider::optional_text_field;
use crate::provider::text_field;
use crate::provider::toggle;
use crate::provider::Tristate;
use vstd::prelude::*;
use vstd::string::*;
use vstd::utf8::*;

verus! {

/// What to create on Bitbucket, for which account, and with which token.
#[derive(Clone, Copy, Debug, PartialEq, Eq)]
pub struct BitbucketArgs<'a> {
    pub name: &'a str,
    /// The app password. It is never part of the request body.
    pub token: &'a str,
    /// The account that is to own the repository. It is never part of the
    /// request body.
    pub username: &'a str,
    pub description: Option<&'a str>,
    pub is_private: Tristate,
    pub has_wiki: Tristate,
    pub has_issues: Tristate,
    pub fork_policy: Option<&'a str>,
    pub scm: Option<&'a str>,
    pub language: Option<&'a str>,
}

/// The base64 digit for a number below sixty-four: the capital letters,
/// the small letters, the digits, `+` and `/`.
pub open spec fn base64_digit(v: nat) -> char
    recommends
        v < 64,
{
    if v < 26 {
        ('A' as nat + v) as char
    } else if v < 52 {
        ('a' as nat + v - 26) as char
    } else if v < 62 {
        ('0' as nat + v - 52) as char
    } else if v == 62 {
        '+'
    } else {
        '/'
    }
}

/// The base64 text of bytes: four digits for every three bytes, six bits to
/// a digit. One or two bytes at the end are filled up with zero bits and
/// give two or three digits, and `=` pads the text to a multiple of four.
pub open spec fn base64(bytes: Seq<u8>) -> Seq<char>
    decreases bytes.len(),
{
    if bytes.len() == 0 {
        Seq::empty()
    } else if bytes.len() == 1 {
        let a = bytes[0] as nat;
        seq![base64_digit(a / 4), base64_digit(a % 4 * 16), '=', '=']
    } else if bytes.len() == 2 {
        let a = bytes[0] as nat;
        let b = bytes[1] as nat;
        seq![
            base64_digit(a / 4),
            base64_digit(a % 4 * 16 + b / 16),
            base64_digit(b % 16 * 4),
            '=',
        ]
    } else {
        let a = bytes[0] as nat;
        let b = bytes[1] as nat;
        let c = bytes[2] as nat;
        seq![
            base64_digit(a / 4),
            base64_digit(a % 4 * 16 + b / 16),
            base64_digit(b % 16 * 4 + c / 64),
            base64_digit(c % 64),
        ] + base64(bytes.subrange(3, bytes.len() as int))
    }
}

/// The base64 text of a string's UTF-8 bytes.
pub open spec fn base64_text(s: Seq<char>) -> Seq<char> {
    base64(encode_utf8(s))
}

/// Calls `base64::encode` on the bytes of a string, which gives their
/// base64 text in the standard alphabet, with padding. The contract spells
/// that text out; Verus takes it on trust.
#[verifier::external_body]
fn encode(s: &str) -> (r: String)
    ensures
        r@ == base64_text(s@),
{
    base64::encode(s)
}

/// What is encoded for basic authentication: the account, a colon and the
/// password.
pub open spec fn user_pass(username: Seq<char>, token: Seq<char>) -> Seq<char> {
    username + seq![':'] + token
}

/// The value of a basic authorisation header for credentials that are
/// already encoded.
pub open spec fn basic_text(encoded: Seq<char>) -> Seq<char> {
    "Basic "@ + encoded
}

/// Writes the value of a basic authorisation header around credentials that
/// are already encoded.
pub fn basic(encoded: &str) -> (r: String)
    ensures
        r@ == basic_text(encoded@),
{
    let mut out = String::from_str("Basic ");
    out.append(encoded);
    out
}

impl<'a> BitbucketArgs<'a> {
    /// The settings under the names of Bitbucket's API, in the order in
    /// which they are written.
    pub open spec fn settings(&self) -> Seq<FieldView> {
        seq![
            field("name"@, SettingView::Text(self.name@)),
            field("description"@, optional_text(self.description)),
            field("is_private"@, toggle(self.is_private)),
            field("has_wiki"@, toggle(self.has_wiki)),
            field("has_issues"@, toggle(self.has_issues)),
            field("fork_policy"@, optional_text(self.fork_policy)),
            field("scm"@, optional_text(self.scm)),
            field("language"@, optional_text(self.language)),
        ]
    }

    /// Where the request goes: the repository's own address under the
    /// account.
    pub open spec fn endpoint_text(&self) -> Seq<char> {
        "https://api.bitbucket.org/2.0/repositories/"@ + self.username@ + seq!['/'] + self.name@
    }

    /// The page of the new repository.
    pub open spec fn created_url(&self) -> Seq<char> {
        "https://bitbucket.org/"@ + self.username@ + seq!['/'] + self.name@
    }

    /// The address of the new repository for ssh.
    pub open spec fn ssh_text(&self) -> Seq<char> {
        "git@bitbucket.com:"@ + self.username@ + seq!['/'] + self.name@ + ".git"@
    }

    /// The value of the authorisation header.
    pub open spec fn token_text(&self) -> Seq<char> {
        basic_text(base64_text(user_pass(self.username@, self.token@)))
    }

    /// The settings as fields of the request body.
    pub fn fields<'b>(&'b self) -> (r: Vec<Field<'b>>)
        ensures
            fields_view(r@) == self.settings(),
    {
        let mut v: Vec<Field<'b>> = Vec::new();
        v.push(text_field("name", self.name));
        v.push(optional_text_field("description", self.description));
        v.push(flag_field("is_private", self.is_private));
        v.push(flag_field("has_wiki", self.has_wiki));
        v.push(flag_field("has_issues", self.has_issues));
        v.push(optional_text_field("fork_policy", self.fork_policy));
        v.push(optional_text_field("scm", self.scm));
        v.push(optional_text_field("language", self.language));
        assert(fields_view(v@) =~= self.settings());
        v
    }

    /// The request body: a JSON object with the settings that were given a
    /// value.
    pub fn payload(&self) -> (r: String)
        ensures
            r@ == object_text(self.settings()),
    {
        render(&self.fields())
    }

    /// Where the request goes.
    pub fn endpoint(&self) -> (r: String)
        ensures
            r@ == self.endpoint_text(),
    {
        proof {
            reveal_strlit("/");
        }
        let mut out = String::from_str("https://api.bitbucket.org/2.0/repositories/");
        out.append(self.username);
        out.append("/");
        out.append(self.name);
        assert(out@ =~= self.endpoint_text());
        out
    }

    /// The page of the new repository. The response is not asked: account
    /// and name say where it is.
    pub fn extract_url(&self, headers: &Headers) -> (r: String)
        ensures
            r@ == self.created_url(),
    {
        proof {
            reveal_strlit("/");
        }
        let mut out = String::from_str("https://bitbucket.org/");
        out.append(self.username);
        out.append("/");
        out.append(self.name);
        assert(out@ =~= self.created_url());
        out
    }

    /// The value of the authorisation header: `Basic`, a space, and the
    /// base64 text of account, colon and password.
    pub fn token(&self) -> (r: String)
        ensures
            r@ == self.token_text(),
    {
        proof {
            reveal_strlit(":");
        }
        let mut plain = String::from_str(self.username);
        plain.append(":");
        plain.append(self.token);
        assert(plain@ =~= user_pass(self.username@, self.token@));
        let encoded = encode(plain.as_str());
        basic(encoded.as_str())
    }

    /// The name of the header that carries the token.
    pub fn auth_header(&self) -> (r: String)
        ensures
            r@ == "Authorization"@,
    {
        String::from_str("Authorization")
    }

    /// The address of the new repository for ssh.
    pub fn ssh_url(&self, headers: &Headers) -> (r: Option<String>)
        ensures
            r matches Some(url) && url@ == self.ssh_text(),
    {
        proof {
            reveal_strlit("/");
        }
        let mut out = String::from_str("git@bitbucket.com:");
        out.append(self.username);
        out.append("/");
        out.append(self.name);
        out.append(".git");
        assert(out@ =~= self.ssh_text());
        Some(out)
    }
}

/// No two settings of Bitbucket share a name.
pub proof fn lemma_names_differ(args: BitbucketArgs)
    ensures
        distinct_names(args.settings()),
{
    reveal_strlit("name");
    reveal_strlit("description");
    reveal_strlit("is_private");
    reveal_strlit("has_wiki");
    reveal_strlit("has_issues");
    reveal_strlit("fork_policy");
    reveal_strlit("scm");
    reveal_strlit("language");
    let s = args.settings();
    // Names of one length differ in their first letter.
    assert(forall|i: int|
        0 <= i < s.len() ==> (#[trigger] s[i]).name.len() >= 3 && s[i].name[0] != ' ');
}

/// A setting that was left unspecified has no member in the request body,
/// and one that was given a value is a member under its name with that
/// value.
pub proof fn lemma_payload_members(args: BitbucketArgs, i: int)
    requires
        0 <= i < args.settings().len(),
    ensures
        args.settings()[i].value is Unspecified ==> !has_member(
            emitted(args.settings()),
            args.settings()[i].name,
        ),
        !(args.settings()[i].value is Unspecified) ==> emitted(args.settings()).contains(
            args.settings()[i],
        ),
{
    lemma_names_differ(args);
    lemma_members(args.settings(), i);
}

} // verus!
