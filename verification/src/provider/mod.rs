//! The providers, and what their settings have in common.

pub mod azure;
pub mod bitbucket;
pub mod github;
pub mod gitlab;

use crate::json::Field;
use crate::json::Setting;
use crate::json::SettingView;
use crate::json::FieldView;
use crate::json::texts;
use vstd::prelude::*;
use vstd::string::*;

verus! {

/// A switch of a repository. Left unspecified it is not sent, and the
/// provider applies its own default, which for several switches is "on".
#[derive(Clone, Copy, Debug, PartialEq, Eq)]
pub enum Tristate {
    Unspecified,
    True,
    False,
}

impl Tristate {
    /// A switch that its flag can only turn on: on where the flag was
    /// given, unspecified where it was not.
    pub fn enabled_by(flag: bool) -> (r: Tristate)
        ensures
            r == (if flag {
                Tristate::True
            } else {
                Tristate::Unspecified
            }),
    {
        if flag {
            Tristate::True
        } else {
            Tristate::Unspecified
        }
    }

    /// A switch that its flag can only turn off: off where the flag was
    /// given, unspecified where it was not.
    pub fn disabled_by(flag: bool) -> (r: Tristate)
        ensures
            r == (if flag {
                Tristate::False
            } else {
                Tristate::Unspecified
            }),
    {
        if flag {
            Tristate::False
        } else {
            Tristate::Unspecified
        }
    }
}

/// What is missing from settings that cannot be turned into a request.
#[derive(Clone, Copy, Debug, PartialEq, Eq)]
pub enum ConfigError {
    /// Neither a name nor a path for the new repository.
    MissingName,
    /// No access token.
    MissingToken,
}

/// What the user is told about settings that cannot be turned into a
/// request.
pub open spec fn config_message(error: ConfigError) -> Seq<char> {
    match error {
        ConfigError::MissingName => "A name or a path for the repository is required."@,
        ConfigError::MissingToken => "An access token is required."@,
    }
}

impl ConfigError {
    /// What to tell the user.
    pub fn message(&self) -> (r: &'static str)
        ensures
            r@ == config_message(*self),
    {
        match self {
            ConfigError::MissingName => "A name or a path for the repository is required.",
            ConfigError::MissingToken => "An access token is required.",
        }
    }
}

/// What the request carries for a switch.
pub open spec fn toggle(t: Tristate) -> SettingView {
    match t {
        Tristate::Unspecified => SettingView::Unspecified,
        Tristate::True => SettingView::Flag(true),
        Tristate::False => SettingView::Flag(false),
    }
}

/// What the request carries for a text that may be missing.
pub open spec fn optional_text(s: Option<&str>) -> SettingView {
    match s {
        Some(t) => SettingView::Text(t@),
        None => SettingView::Unspecified,
    }
}

/// What the request carries for a number that may be missing.
pub open spec fn optional_number(n: Option<u32>) -> SettingView {
    match n {
        Some(v) => SettingView::Number(v as nat),
        None => SettingView::Unspecified,
    }
}

/// What the request carries for a list of texts that may be missing.
pub open spec fn optional_list(l: Option<Vec<&str>>) -> SettingView {
    match l {
        Some(v) => SettingView::List(texts(v@)),
        None => SettingView::Unspecified,
    }
}

/// A field from its name and what it carries.
pub open spec fn field(name: Seq<char>, value: SettingView) -> FieldView {
    FieldView { name, value }
}

/// The field for a text that is always sent.
pub fn text_field<'a>(name: &'a str, value: &'a str) -> (r: Field<'a>)
    ensures
        r@ == field(name@, SettingView::Text(value@)),
{
    Field { name, value: Setting::Text(value) }
}

/// The field for a switch.
pub fn flag_field<'a>(name: &'a str, value: Tristate) -> (r: Field<'a>)
    ensures
        r@ == field(name@, toggle(value)),
{
    let value = match value {
        Tristate::Unspecified => Setting::Unspecified,
        Tristate::True => Setting::Flag(true),
        Tristate::False => Setting::Flag(false),
    };
    Field { name, value }
}

/// The field for a text that may be missing.
pub fn optional_text_field<'a>(name: &'a str, value: Option<&'a str>) -> (r: Field<'a>)
    ensures
        r@ == field(name@, optional_text(value)),
{
    let value = match value {
        Some(t) => Setting::Text(t),
        None => Setting::Unspecified,
    };
    Field { name, value }
}

/// The field for a number that may be missing.
pub fn optional_number_field<'a>(name: &'a str, value: Option<u32>) -> (r: Field<'a>)
    ensures
        r@ == field(name@, optional_number(value)),
{
    let value = match value {
        Some(n) => Setting::Number(n),
        None => Setting::Unspecified,
    };
    Field { name, value }
}

/// The field for a list of texts that may be missing.
pub fn optional_list_field<'a>(name: &'a str, value: &'a Option<Vec<&'a str>>) -> (r: Field<'a>)
    ensures
        r@ == field(name@, optional_list(*value)),
{
    let value = match value {
        Some(l) => Setting::List(l),
        None => Setting::Unspecified,
    };
    Field { name, value }
}

} // verus!
