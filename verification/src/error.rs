//! The error conditions the library surfaces. All of them are fatal to the
//! running command except where the caller is told otherwise; none is
//! silently swallowed.

use vstd::prelude::*;

verus! {

#[derive(Debug, Clone, Copy, PartialEq, Eq, Structural)]
pub enum NoteError {
    /// The editor-settings template is not a JSON object of the expected
    /// shape (output-directory field and tool list present and well-typed).
    MalformedSettings,
    /// The first tool record's argument list of the editor-settings template
    /// lacks the path-flag token (or there is no tool record at all), so the
    /// build-recipe path cannot be wired in.
    MissingPathFlag,
    /// A persisted configuration file is not a JSON object of the expected
    /// shape.
    MalformedConfig,
    /// No templates are authored for the requested language.
    UnsupportedLanguage,
}

impl NoteError {
    /// A fixed description of the condition, for reporting to the user.
    pub fn message(&self) -> (r: &'static str)
        ensures
            match self {
                NoteError::MalformedSettings => r@ == "malformed settings template"@,
                NoteError::MissingPathFlag => r@
                    == "\"-r\" option not found in templates/.vscode/settings.json."@,
                NoteError::MalformedConfig => r@ == "malformed config file"@,
                NoteError::UnsupportedLanguage => r@
                    == "templates for the requested language are not implemented"@,
            },
    {
        match self {
            NoteError::MalformedSettings => "malformed settings template",
            NoteError::MissingPathFlag => "\"-r\" option not found in templates/.vscode/settings.json.",
            NoteError::MalformedConfig => "malformed config file",
            NoteError::UnsupportedLanguage => "templates for the requested language are not implemented",
        }
    }
}

} // verus!
