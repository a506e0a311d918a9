//! Errors in configuration files.
use vstd::prelude::*;
use vstd::string::StringExecFns;
use crate::text::{decimal_text, signed_decimal_text, u64_to_decimal, i64_to_decimal};

verus! {

/// Why a configuration could not be loaded. Paths are kept as text.
#[derive(Debug, Clone)]
pub enum ConfigError {
    ConfigurationNotFound(String),
    IoError { path: String, message: String },
    InvalidTomlSyntax { path: String, line: usize, col: usize, message: String },
    InvalidToml { path: String, message: String },
    UnknownSection { path: String, section: String, line: usize },
    UnknownKey { path: String, section: String, key: String, line: usize },
    InvalidValue { path: String, section: String, key: String, line: usize, message: String },
    DuplicateRule { rule: String, path: String },
    InvalidRuleId { rule: String, path: String, line: usize },
    InvalidGlob { pattern: String, path: String, line: usize, message: String },
    InvalidSeverity { value: String, path: String, line: usize },
    InvalidOutputFormat { value: String, path: String, line: usize },
    InvalidColor { value: String, path: String, line: usize },
    NegativeThreads { value: i64, path: String, line: usize },
    Conflicting { message: String },
    SectionNotFound { section: String, path: String },
    CurrentDir(String),
}

/// The spec value of a `ConfigError`, with text as character sequences.
pub enum ConfigErrorView {
    ConfigurationNotFound(Seq<char>),
    IoError { path: Seq<char>, message: Seq<char> },
    InvalidTomlSyntax { path: Seq<char>, line: usize, col: usize, message: Seq<char> },
    InvalidToml { path: Seq<char>, message: Seq<char> },
    UnknownSection { path: Seq<char>, section: Seq<char>, line: usize },
    UnknownKey { path: Seq<char>, section: Seq<char>, key: Seq<char>, line: usize },
    InvalidValue { path: Seq<char>, section: Seq<char>, key: Seq<char>, line: usize, message: Seq<char> },
    DuplicateRule { rule: Seq<char>, path: Seq<char> },
    InvalidRuleId { rule: Seq<char>, path: Seq<char>, line: usize },
    InvalidGlob { pattern: Seq<char>, path: Seq<char>, line: usize, message: Seq<char> },
    InvalidSeverity { value: Seq<char>, path: Seq<char>, line: usize },
    InvalidOutputFormat { value: Seq<char>, path: Seq<char>, line: usize },
    InvalidColor { value: Seq<char>, path: Seq<char>, line: usize },
    NegativeThreads { value: i64, path: Seq<char>, line: usize },
    Conflicting { message: Seq<char> },
    SectionNotFound { section: Seq<char>, path: Seq<char> },
    CurrentDir(Seq<char>),
}

impl View for ConfigError {
    type V = ConfigErrorView;

    open spec fn view(&self) -> ConfigErrorView {
        match self {
            ConfigError::ConfigurationNotFound(p) => ConfigErrorView::ConfigurationNotFound(p@),
            ConfigError::IoError { path, message } => ConfigErrorView::IoError { path: path@, message: message@ },
            ConfigError::InvalidTomlSyntax { path, line, col, message } =>
                ConfigErrorView::InvalidTomlSyntax { path: path@, line: *line, col: *col, message: message@ },
            ConfigError::InvalidToml { path, message } => ConfigErrorView::InvalidToml { path: path@, message: message@ },
            ConfigError::UnknownSection { path, section, line } =>
                ConfigErrorView::UnknownSection { path: path@, section: section@, line: *line },
            ConfigError::UnknownKey { path, section, key, line } =>
                ConfigErrorView::UnknownKey { path: path@, section: section@, key: key@, line: *line },
            ConfigError::InvalidValue { path, section, key, line, message } =>
                ConfigErrorView::InvalidValue { path: path@, section: section@, key: key@, line: *line, message: message@ },
            ConfigError::DuplicateRule { rule, path } => ConfigErrorView::DuplicateRule { rule: rule@, path: path@ },
            ConfigError::InvalidRuleId { rule, path, line } =>
                ConfigErrorView::InvalidRuleId { rule: rule@, path: path@, line: *line },
            ConfigError::InvalidGlob { pattern, path, line, message } =>
                ConfigErrorView::InvalidGlob { pattern: pattern@, path: path@, line: *line, message: message@ },
            ConfigError::InvalidSeverity { value, path, line } =>
                ConfigErrorView::InvalidSeverity { value: value@, path: path@, line: *line },
            ConfigError::InvalidOutputFormat { value, path, line } =>
                ConfigErrorView::InvalidOutputFormat { value: value@, path: path@, line: *line },
            ConfigError::InvalidColor { value, path, line } =>
                ConfigErrorView::InvalidColor { value: value@, path: path@, line: *line },
            ConfigError::NegativeThreads { value, path, line } =>
                ConfigErrorView::NegativeThreads { value: *value, path: path@, line: *line },
            ConfigError::Conflicting { message } => ConfigErrorView::Conflicting { message: message@ },
            ConfigError::SectionNotFound { section, path } =>
                ConfigErrorView::SectionNotFound { section: section@, path: path@ },
            ConfigError::CurrentDir(m) => ConfigErrorView::CurrentDir(m@),
        }
    }
}


/// Copies a string.
fn copy(s: &String) -> (r: String)
    ensures
        r@ == s@,
{
    s.clone()
}

impl ConfigError {
    /// A copy of the error.
    pub fn clone_error(&self) -> (r: ConfigError)
        ensures
            r@ == self@,
    {
        match self {
            ConfigError::ConfigurationNotFound(p) => ConfigError::ConfigurationNotFound(copy(p)),
            ConfigError::IoError { path, message } => ConfigError::IoError { path: copy(path), message: copy(message) },
            ConfigError::InvalidTomlSyntax { path, line, col, message } =>
                ConfigError::InvalidTomlSyntax { path: copy(path), line: *line, col: *col, message: copy(message) },
            ConfigError::InvalidToml { path, message } => ConfigError::InvalidToml { path: copy(path), message: copy(message) },
            ConfigError::UnknownSection { path, section, line } =>
                ConfigError::UnknownSection { path: copy(path), section: copy(section), line: *line },
            ConfigError::UnknownKey { path, section, key, line } =>
                ConfigError::UnknownKey { path: copy(path), section: copy(section), key: copy(key), line: *line },
            ConfigError::InvalidValue { path, section, key, line, message } =>
                ConfigError::InvalidValue { path: copy(path), section: copy(section), key: copy(key), line: *line, message: copy(message) },
            ConfigError::DuplicateRule { rule, path } => ConfigError::DuplicateRule { rule: copy(rule), path: copy(path) },
            ConfigError::InvalidRuleId { rule, path, line } =>
                ConfigError::InvalidRuleId { rule: copy(rule), path: copy(path), line: *line },
            ConfigError::InvalidGlob { pattern, path, line, message } =>
                ConfigError::InvalidGlob { pattern: copy(pattern), path: copy(path), line: *line, message: copy(message) },
            ConfigError::InvalidSeverity { value, path, line } =>
                ConfigError::InvalidSeverity { value: copy(value), path: copy(path), line: *line },
            ConfigError::InvalidOutputFormat { value, path, line } =>
                ConfigError::InvalidOutputFormat { value: copy(value), path: copy(path), line: *line },
            ConfigError::InvalidColor { value, path, line } =>
                ConfigError::InvalidColor { value: copy(value), path: copy(path), line: *line },
            ConfigError::NegativeThreads { value, path, line } =>
                ConfigError::NegativeThreads { value: *value, path: copy(path), line: *line },
            ConfigError::Conflicting { message } => ConfigError::Conflicting { message: copy(message) },
            ConfigError::SectionNotFound { section, path } =>
                ConfigError::SectionNotFound { section: copy(section), path: copy(path) },
            ConfigError::CurrentDir(m) => ConfigError::CurrentDir(copy(m)),
        }
    }
}

/// The message of a configuration error, as it is shown to the user.
pub open spec fn config_error_text(e: ConfigErrorView) -> Seq<char> {
    match e {
        ConfigErrorView::ConfigurationNotFound(p) => "Configuration file not found: "@ + p,
        ConfigErrorView::IoError { path, message } =>
            "Failed to read configuration file "@ + path + ": "@ + message,
        ConfigErrorView::InvalidTomlSyntax { path, line, col, message } =>
            "Invalid TOML syntax in "@ + path + " at line "@ + decimal_text(line as nat) + " column "@
                + decimal_text(col as nat) + ": "@ + message,
        ConfigErrorView::InvalidToml { path, message } => "Invalid TOML in "@ + path + ": "@ + message,
        ConfigErrorView::UnknownSection { path, section, line } =>
            "Unknown configuration section '"@ + section + "' in "@ + path + " at line "@
                + decimal_text(line as nat),
        ConfigErrorView::UnknownKey { path, section, key, line } =>
            "Unknown key '"@ + key + "' in section ["@ + section + "] at line "@ + decimal_text(line as nat)
                + " in "@ + path,
        ConfigErrorView::InvalidValue { path, section, key, line, message } =>
            "Invalid value for '"@ + key + "' in section ["@ + section + "] at line "@
                + decimal_text(line as nat) + " in "@ + path + ": "@ + message,
        ConfigErrorView::DuplicateRule { rule, path } =>
            "Duplicate rule '"@ + rule + "' in rules section: occurs at enable and disable lists"@,
        ConfigErrorView::InvalidRuleId { rule, path, line } =>
            "Invalid rule ID '"@ + rule + "' in "@ + path
                + ": rule IDs must be non-empty, lowercase alphanumeric with hyphens"@,
        ConfigErrorView::InvalidGlob { pattern, path, line, message } =>
            "Invalid glob pattern '"@ + pattern + "' in "@ + path + ": "@ + message,
        ConfigErrorView::InvalidSeverity { value, path, line } =>
            "Invalid severity value '"@ + value + "' in "@ + path
                + ": must be one of info, low, medium, high, critical"@,
        ConfigErrorView::InvalidOutputFormat { value, path, line } =>
            "Invalid output format '"@ + value + "' in "@ + path + ": must be one of pretty, compact, json"@,
        ConfigErrorView::InvalidColor { value, path, line } =>
            "Invalid color value '"@ + value + "' in "@ + path + ": must be one of auto, always, never"@,
        ConfigErrorView::NegativeThreads { value, path, line } =>
            "Negative value for 'threads' ("@ + signed_decimal_text(value as int) + ") in "@ + path,
        ConfigErrorView::Conflicting { message } => "Conflicting configuration: "@ + message,
        ConfigErrorView::SectionNotFound { section, path } =>
            "Configuration section '"@ + section + "' not found in "@ + path,
        ConfigErrorView::CurrentDir(m) => "Cannot read current directory: "@ + m,
    }
}

/// Appends the decimal digits of `n`.
fn push_count(r: &mut String, n: usize)
    ensures
        final(r)@ == old(r)@ + decimal_text(n as nat),
{
    let d = u64_to_decimal(n as u64);
    r.append(d.as_str());
}

impl ConfigError {
    /// The message of the error, as `config_error_text` states it.
    pub fn to_string(&self) -> (r: String)
        ensures
            r@ == config_error_text(self@),
    {
        match self {
            ConfigError::ConfigurationNotFound(p) => {
                let mut r = String::from_str("Configuration file not found: ");
                r.append(p.as_str());
                r
            },
            ConfigError::IoError { path, message } => {
                let mut r = String::from_str("Failed to read configuration file ");
                r.append(path.as_str());
                r.append(": ");
                r.append(message.as_str());
                r
            },
            ConfigError::InvalidTomlSyntax { path, line, col, message } => {
                let mut r = String::from_str("Invalid TOML syntax in ");
                r.append(path.as_str());
                r.append(" at line ");
                push_count(&mut r, *line);
                r.append(" column ");
                push_count(&mut r, *col);
                r.append(": ");
                r.append(message.as_str());
                r
            },
            ConfigError::InvalidToml { path, message } => {
                let mut r = String::from_str("Invalid TOML in ");
                r.append(path.as_str());
                r.append(": ");
                r.append(message.as_str());
                r
            },
            ConfigError::UnknownSection { path, section, line } => {
                let mut r = String::from_str("Unknown configuration section '");
                r.append(section.as_str());
                r.append("' in ");
                r.append(path.as_str());
                r.append(" at line ");
                push_count(&mut r, *line);
                r
            },
            ConfigError::UnknownKey { path, section, key, line } => {
                let mut r = String::from_str("Unknown key '");
                r.append(key.as_str());
                r.append("' in section [");
                r.append(section.as_str());
                r.append("] at line ");
                push_count(&mut r, *line);
                r.append(" in ");
                r.append(path.as_str());
                r
            },
            ConfigError::InvalidValue { path, section, key, line, message } => {
                let mut r = String::from_str("Invalid value for '");
                r.append(key.as_str());
                r.append("' in section [");
                r.append(section.as_str());
                r.append("] at line ");
                push_count(&mut r, *line);
                r.append(" in ");
                r.append(path.as_str());
                r.append(": ");
                r.append(message.as_str());
                r
            },
            ConfigError::DuplicateRule { rule, path } => {
                let mut r = String::from_str("Duplicate rule '");
                r.append(rule.as_str());
                r.append("' in rules section: occurs at enable and disable lists");
                r
            },
            ConfigError::InvalidRuleId { rule, path, line } => {
                let mut r = String::from_str("Invalid rule ID '");
                r.append(rule.as_str());
                r.append("' in ");
                r.append(path.as_str());
                r.append(": rule IDs must be non-empty, lowercase alphanumeric with hyphens");
                r
            },
            ConfigError::InvalidGlob { pattern, path, line, message } => {
                let mut r = String::from_str("Invalid glob pattern '");
                r.append(pattern.as_str());
                r.append("' in ");
                r.append(path.as_str());
                r.append(": ");
                r.append(message.as_str());
                r
            },
            ConfigError::InvalidSeverity { value, path, line } => {
                let mut r = String::from_str("Invalid severity value '");
                r.append(value.as_str());
                r.append("' in ");
                r.append(path.as_str());
                r.append(": must be one of info, low, medium, high, critical");
                r
            },
            ConfigError::InvalidOutputFormat { value, path, line } => {
                let mut r = String::from_str("Invalid output format '");
                r.append(value.as_str());
                r.append("' in ");
                r.append(path.as_str());
                r.append(": must be one of pretty, compact, json");
                r
            },
            ConfigError::InvalidColor { value, path, line } => {
                let mut r = String::from_str("Invalid color value '");
                r.append(value.as_str());
                r.append("' in ");
                r.append(path.as_str());
                r.append(": must be one of auto, always, never");
                r
            },
            ConfigError::NegativeThreads { value, path, line } => {
                let mut r = String::from_str("Negative value for 'threads' (");
                let d = i64_to_decimal(*value);
                r.append(d.as_str());
                r.append(") in ");
                r.append(path.as_str());
                r
            },
            ConfigError::Conflicting { message } => {
                let mut r = String::from_str("Conflicting configuration: ");
                r.append(message.as_str());
                r
            },
            ConfigError::SectionNotFound { section, path } => {
                let mut r = String::from_str("Configuration section '");
                r.append(section.as_str());
                r.append("' not found in ");
                r.append(path.as_str());
                r
            },
            ConfigError::CurrentDir(m) => {
                let mut r = String::from_str("Cannot read current directory: ");
                r.append(m.as_str());
                r
            },
        }
    }
}

} // verus!
