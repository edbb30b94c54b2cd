//! The errors that readmetoo reports.

use vstd::prelude::*;
use vstd::string::*;

verus! {

/// Top-level errors for readmetoo.
pub enum ReadmetooError {
    FileNotFound(String),
    IoError { path: String, source: String },
    ThemeNotFound(String),
    ConfigError(String),
    RenderError(String),
    PagerError(String),
}

/// The mathematical value of a [`ReadmetooError`].
pub enum ErrorView {
    FileNotFound(Seq<char>),
    IoError { path: Seq<char>, source: Seq<char> },
    ThemeNotFound(Seq<char>),
    ConfigError(Seq<char>),
    RenderError(Seq<char>),
    PagerError(Seq<char>),
}

impl View for ReadmetooError {
    type V = ErrorView;

    open spec fn view(&self) -> ErrorView {
        match self {
            ReadmetooError::FileNotFound(p) => ErrorView::FileNotFound(p@),
            ReadmetooError::IoError { path, source } => ErrorView::IoError { path: path@, source: source@ },
            ReadmetooError::ThemeNotFound(n) => ErrorView::ThemeNotFound(n@),
            ReadmetooError::ConfigError(m) => ErrorView::ConfigError(m@),
            ReadmetooError::RenderError(m) => ErrorView::RenderError(m@),
            ReadmetooError::PagerError(m) => ErrorView::PagerError(m@),
        }
    }
}

/// The message shown for an error.
pub open spec fn error_message(e: ErrorView) -> Seq<char> {
    match e {
        ErrorView::FileNotFound(p) => "File not found: "@ + p,
        ErrorView::IoError { path, source } => "Failed to read file '"@ + path + "': "@ + source,
        ErrorView::ThemeNotFound(n) => "Theme '"@ + n
            + "' not found. Run `readmetoo --list-themes` to see available themes."@,
        ErrorView::ConfigError(m) => "Invalid configuration: "@ + m,
        ErrorView::RenderError(m) => "Rendering error: "@ + m,
        ErrorView::PagerError(m) => "Pager error: "@ + m,
    }
}

impl ReadmetooError {
    /// The error for a file that does not exist.
    pub fn file_not_found(path: &str) -> (e: Self)
        ensures
            e@ == ErrorView::FileNotFound(path@),
    {
        ReadmetooError::FileNotFound(String::from_str(path))
    }

    /// The error for a theme name that no theme has.
    pub fn theme_not_found(name: &str) -> (e: Self)
        ensures
            e@ == ErrorView::ThemeNotFound(name@),
    {
        ReadmetooError::ThemeNotFound(String::from_str(name))
    }

    /// The message shown for this error.
    pub fn message(&self) -> (m: String)
        ensures
            m@ == error_message(self@),
    {
        match self {
            ReadmetooError::FileNotFound(p) => {
                let mut m = String::from_str("File not found: ");
                m.append(p.as_str());
                m
            },
            ReadmetooError::IoError { path, source } => {
                let mut m = String::from_str("Failed to read file '");
                m.append(path.as_str());
                m.append("': ");
                m.append(source.as_str());
                m
            },
            ReadmetooError::ThemeNotFound(n) => {
                let mut m = String::from_str("Theme '");
                m.append(n.as_str());
                m.append("' not found. Run `readmetoo --list-themes` to see available themes.");
                m
            },
            ReadmetooError::ConfigError(c) => {
                let mut m = String::from_str("Invalid configuration: ");
                m.append(c.as_str());
                m
            },
            ReadmetooError::RenderError(c) => {
                let mut m = String::from_str("Rendering error: ");
                m.append(c.as_str());
                m
            },
            ReadmetooError::PagerError(c) => {
                let mut m = String::from_str("Pager error: ");
                m.append(c.as_str());
                m
            },
        }
    }
}

} // verus!
