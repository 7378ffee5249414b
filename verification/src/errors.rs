//! The library's error type.

use vstd::prelude::*;

verus! {

use crate::text::str_to_string;
use crate::text::append_str;

/// What went wrong, with a human-readable detail.
#[derive(Debug)]
pub enum ProjectLintError {
    Config(String),
    Git(String),
    FileSystem(String),
    Validation(String),
    Parse(String),
}

/// The text of an error: its area, then its detail.
pub open spec fn spec_error_message(e: ProjectLintError) -> Seq<char> {
    match e {
        ProjectLintError::Config(s) => "Configuration error: "@ + s@,
        ProjectLintError::Git(s) => "Git error: "@ + s@,
        ProjectLintError::FileSystem(s) => "File system error: "@ + s@,
        ProjectLintError::Validation(s) => "Validation error: "@ + s@,
        ProjectLintError::Parse(s) => "Parse error: "@ + s@,
    }
}

impl ProjectLintError {
    /// The text of this error: its area, then its detail.
    pub fn message(&self) -> (r: String)
        ensures
            r@ == spec_error_message(*self),
    {
        let mut m: String;
        match self {
            ProjectLintError::Config(s) => {
                m = str_to_string("Configuration error: ");
                append_str(&mut m, s.as_str());
            },
            ProjectLintError::Git(s) => {
                m = str_to_string("Git error: ");
                append_str(&mut m, s.as_str());
            },
            ProjectLintError::FileSystem(s) => {
                m = str_to_string("File system error: ");
                append_str(&mut m, s.as_str());
            },
            ProjectLintError::Validation(s) => {
                m = str_to_string("Validation error: ");
                append_str(&mut m, s.as_str());
            },
            ProjectLintError::Parse(s) => {
                m = str_to_string("Parse error: ");
                append_str(&mut m, s.as_str());
            },
        }
        m
    }
}

} // verus!
