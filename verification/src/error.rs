//! Why a registry name was refused.

use vstd::prelude::*;

use crate::version::{semver_parse, semver_refusal, strip_leading_v, strip_v};

verus! {

/// Why a registry name was refused.
#[derive(Debug)]
pub enum NameError {
    /// The name is empty.
    Empty,
    /// The name starts or ends with `/`.
    LeadingOrTrailingSlash(String),
    /// The name has more than one `/`.
    TooManySlashes(String),
    /// The name has an `@` where no version is allowed.
    UnexpectedVersion(String),
    /// The name holds a char that is not an ASCII letter, digit, `-` or `_`.
    InvalidCharacter(String, char),
    /// The text after `@` is not a semantic version.
    InvalidVersion { input: String, version: String, source: semver::Error },
}

/// What an [`NameError`] says, with its texts as char sequences.
pub enum NameErrorView {
    Empty,
    LeadingOrTrailingSlash(Seq<char>),
    TooManySlashes(Seq<char>),
    UnexpectedVersion(Seq<char>),
    InvalidCharacter(Seq<char>, char),
    InvalidVersion { input: Seq<char>, version: Seq<char> },
}

impl View for NameError {
    type V = NameErrorView;

    open spec fn view(&self) -> NameErrorView {
        match self {
            NameError::Empty => NameErrorView::Empty,
            NameError::LeadingOrTrailingSlash(s) => NameErrorView::LeadingOrTrailingSlash(s@),
            NameError::TooManySlashes(s) => NameErrorView::TooManySlashes(s@),
            NameError::UnexpectedVersion(s) => NameErrorView::UnexpectedVersion(s@),
            NameError::InvalidCharacter(s, c) => NameErrorView::InvalidCharacter(s@, *c),
            NameError::InvalidVersion { input, version, .. } => NameErrorView::InvalidVersion {
                input: input@,
                version: version@,
            },
        }
    }
}

/// `Display` of `semver::Error`; its text is left unsaid here.
#[verifier::external_body]
fn semver_error_text(e: &semver::Error) -> String {
    e.to_string()
}

/// The message of each error but a refused version, whose message ends with
/// the text of the `semver` error.
pub open spec fn error_message(e: NameErrorView) -> Seq<char> {
    match e {
        NameErrorView::Empty => "registry name cannot be empty"@,
        NameErrorView::LeadingOrTrailingSlash(s) => "registry name `"@ + s
            + "` cannot start or end with `/`"@,
        NameErrorView::TooManySlashes(s) => "registry name `"@ + s
            + "` has more than one `/`; expected `name` or `channel/name`"@,
        NameErrorView::UnexpectedVersion(s) => "unexpected `@` in `"@ + s
            + "`: a version is not allowed in this name (wasm versions are passed separately, e.g. `--version 1.0.0`; deployed contracts have no version)"@,
        NameErrorView::InvalidCharacter(s, c) => "invalid character `"@ + seq![c]
            + "` in registry name `"@ + s
            + "`; expected ASCII letters, digits, `-` or `_`"@,
        NameErrorView::InvalidVersion { input, version } => "invalid version `"@ + version
            + "` in `"@ + input + "`: "@,
    }
}

impl NameError {
    /// The error's message. For a refused version it is the start shown by
    /// [`error_message`] followed by what `semver` says against the version
    /// (less a leading `v`), as the `semver` error carried in it does.
    pub fn to_string(&self) -> (r: String)
        ensures
            self@ is InvalidVersion ==> r@.len() >= error_message(self@).len() && r@.take(
                error_message(self@).len() as int,
            ) == error_message(self@),
            self@ matches NameErrorView::InvalidVersion { version, .. } ==> (semver_parse(
                strip_v(version),
            ) matches Err(t) ==> r@ == error_message(self@) + t),
            !(self@ is InvalidVersion) ==> r@ == error_message(self@),
    {
        match self {
            NameError::Empty => String::from_str("registry name cannot be empty"),
            NameError::LeadingOrTrailingSlash(s) => {
                let mut m = String::from_str("registry name `");
                m.append(s.as_str());
                m.append("` cannot start or end with `/`");
                m
            },
            NameError::TooManySlashes(s) => {
                let mut m = String::from_str("registry name `");
                m.append(s.as_str());
                m.append("` has more than one `/`; expected `name` or `channel/name`");
                m
            },
            NameError::UnexpectedVersion(s) => {
                let mut m = String::from_str("unexpected `@` in `");
                m.append(s.as_str());
                m.append(
                    "`: a version is not allowed in this name (wasm versions are passed separately, e.g. `--version 1.0.0`; deployed contracts have no version)",
                );
                m
            },
            NameError::InvalidCharacter(s, c) => {
                let mut m = String::from_str("invalid character `");
                m.push(*c);
                m.append("` in registry name `");
                m.append(s.as_str());
                m.append("`; expected ASCII letters, digits, `-` or `_`");
                m
            },
            NameError::InvalidVersion { input, version, source } => {
                let mut m = String::from_str("invalid version `");
                m.append(version.as_str());
                m.append("` in `");
                m.append(input.as_str());
                m.append("`: ");
                let ghost start = m@;
                let t = match semver_refusal(strip_leading_v(version.as_str())) {
                    Some(reason) => reason,
                    None => semver_error_text(source),
                };
                m.append(t.as_str());
                assert(m@.take(start.len() as int) == start);
                m
            },
        }
    }
}

} // verus!
