//! Calls into the TOML and glob libraries that configuration checking relies on.
use vstd::prelude::*;

verus! {

/// What the TOML parser makes of a document: a syntax error with its message
/// and the byte offset where it starts, or the keys of the top-level table
/// (`None` if the top level is not a table).
#[derive(Debug, Clone)]
pub enum TomlDocument {
    Malformed { message: String, offset: Option<usize> },
    Parsed { top_level_keys: Option<Vec<String>> },
}

/// The spec value of a `TomlDocument`.
pub enum TomlDocumentView {
    Malformed { message: Seq<char>, offset: Option<usize> },
    Parsed { top_level_keys: Option<Seq<Seq<char>>> },
}

impl View for TomlDocument {
    type V = TomlDocumentView;

    open spec fn view(&self) -> TomlDocumentView {
        match self {
            TomlDocument::Malformed { message, offset } =>
                TomlDocumentView::Malformed { message: message@, offset: *offset },
            TomlDocument::Parsed { top_level_keys } => TomlDocumentView::Parsed {
                top_level_keys: match top_level_keys {
                    Some(keys) => Some(Seq::new(keys@.len(), |i: int| keys@[i]@)),
                    None => None,
                },
            },
        }
    }
}

/// What `toml::from_str::<toml::Value>` makes of a document.
pub uninterp spec fn toml_parse(input: Seq<char>) -> TomlDocumentView;

/// The message of the error that `glob::Pattern::new` reports for a pattern,
/// `None` when it accepts the pattern.
pub uninterp spec fn glob_rejection(pattern: Seq<char>) -> Option<Seq<char>>;

/// Parses a TOML document with `toml::from_str` into a `toml::Value`, keeping its
/// error message and the start of the error's span, or the keys of the top-level
/// table. The contract names the outcome and says nothing more of it.
#[verifier::external_body]
pub(crate) fn parse_toml_document(input: &str) -> (r: TomlDocument)
    ensures
        r@ == toml_parse(input@),
{
    match toml::from_str::<toml::Value>(input) {
        Err(e) => TomlDocument::Malformed {
            message: e.message().to_string(),
            offset: e.span().map(|s| s.start),
        },
        Ok(v) => TomlDocument::Parsed {
            top_level_keys: v.as_table().map(|t| t.keys().cloned().collect()),
        },
    }
}

/// Compiles a pattern with `glob::Pattern::new` and returns the message of the
/// `PatternError` it reports, or `None` when the pattern compiles. The contract
/// names the outcome and says nothing more of it.
#[verifier::external_body]
pub(crate) fn glob_pattern_error(pattern: &str) -> (r: Option<String>)
    ensures
        r is Some <==> glob_rejection(pattern@) is Some,
        r matches Some(m) ==> glob_rejection(pattern@) == Some(m@),
{
    glob::Pattern::new(pattern).err().map(|e| e.msg.to_string())
}

} // verus!
