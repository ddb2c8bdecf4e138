//! Configuration codec: the strongly-typed configuration value, and the
//! translation of a structural decode failure into the host's
//! configuration-error shape (message with positional diagnostics stripped,
//! field path split into ordered segments).

use vstd::prelude::*;
use vstd::string::*;
use crate::text::{
    contains_pat, lemma_strip_removes_pattern, split_on, split_on_char, strip_from,
    truncate_at_first,
};

verus! {

/// The strongly-typed configuration: the path under which the web resource
/// is registered.
#[derive(Debug, PartialEq, Eq)]
pub struct Config {
    pub path: String,
}

/// What a structural decoder reports on failure: the rendered field path
/// (segments joined by `.`) and the raw error message, which may end in a
/// positional diagnostic referring to the canonical text.
#[derive(Debug)]
pub struct DecodeFailure {
    pub path_text: String,
    pub raw_message: String,
}

/// The structured configuration error the host's exception system expects:
/// a cleaned human-readable message and the ordered field-path segments.
#[derive(Debug, PartialEq, Eq)]
pub struct ConfigError {
    pub message: String,
    pub path: Vec<String>,
}

/// The marker that opens a positional diagnostic suffix in a decoder's
/// error message.
pub open spec fn positional_marker() -> Seq<char> {
    " at line "@
}

/// A decode error message with any positional diagnostic suffix stripped:
/// everything from the first occurrence of the marker on is dropped.
pub open spec fn cleaned_message(raw: Seq<char>) -> Seq<char> {
    strip_from(raw, positional_marker())
}

/// A rendered field path as its ordered segments: the path text split on
/// `.`.  A structural decoder renders the empty path of a top-level failure
/// as `.` alone, which maps to the empty segment sequence.  A field name
/// that itself contains the separator cannot be told apart from nesting in
/// the rendered text; such a name splits into several segments.
pub open spec fn path_segments(path_text: Seq<char>) -> Seq<Seq<char>> {
    if path_text == "."@ {
        Seq::empty()
    } else {
        split_on(path_text, '.')
    }
}

/// The abstract value of a `ConfigError`.
pub struct ConfigErrorV {
    pub message: Seq<char>,
    pub path: Seq<Seq<char>>,
}

impl View for ConfigError {
    type V = ConfigErrorV;

    open spec fn view(&self) -> ConfigErrorV {
        ConfigErrorV { message: self.message@, path: self.path.deep_view() }
    }
}

/// The translation of a decode failure into the host's error shape.
pub open spec fn translated_error(path_text: Seq<char>, raw_message: Seq<char>) -> ConfigErrorV {
    ConfigErrorV { message: cleaned_message(raw_message), path: path_segments(path_text) }
}

impl ConfigError {
    /// Builds the structured configuration error from a decode failure:
    /// strips the positional diagnostic suffix from the message and splits
    /// the rendered path into its segments.
    pub fn from_decode_failure(failure: &DecodeFailure) -> (r: ConfigError)
        ensures
            r@ == translated_error(failure.path_text@, failure.raw_message@),
    {
        let message = truncate_at_first(failure.raw_message.as_str(), " at line ");
        let path_text = failure.path_text.as_str();
        let top_level = path_text.unicode_len() == 1 && path_text.get_char(0) == '.';
        proof {
            reveal_strlit(".");
            if top_level {
                assert(path_text@ =~= "."@);
            }
        }
        let path: Vec<String> = if top_level {
            Vec::new()
        } else {
            split_on_char(path_text, '.')
        };
        proof {
            if top_level {
                assert(path.deep_view() =~= Seq::<Seq<char>>::empty());
            }
        }
        ConfigError { message, path }
    }
}

/// A cleaned message never contains a positional diagnostic suffix: no
/// occurrence of the marker survives the stripping.
pub proof fn lemma_cleaned_message_has_no_marker(raw: Seq<char>)
    ensures
        !contains_pat(cleaned_message(raw), positional_marker()),
{
    reveal_strlit(" at line ");
    lemma_strip_removes_pattern(raw, positional_marker());
}

/// The tail of configuration parsing: a successful decode yields the decoded
/// configuration unchanged; a failure yields the translated structured error
/// and nothing else.
pub fn config_from_decode(outcome: Result<Config, DecodeFailure>) -> (r: Result<
    Config,
    ConfigError,
>)
    ensures
        match outcome {
            Ok(c) => r is Ok && r->Ok_0.path@ == c.path@,
            Err(f) => r is Err && r->Err_0@ == translated_error(f.path_text@, f.raw_message@),
        },
{
    match outcome {
        Ok(c) => Ok(c),
        Err(f) => Err(ConfigError::from_decode_failure(&f)),
    }
}

} // verus!
