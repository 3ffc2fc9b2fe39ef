//! The failures of a run and the diagnostic that each is reported with.

use vstd::prelude::*;
use vstd::string::*;

verus! {

/// Everything that can end a run early. A `String` payload is the text of
/// the underlying cause as the caller obtained it.
#[derive(Debug, PartialEq, Eq)]
pub enum AppError {
    /// No API key is available; the payload says why.
    APIKeyError(String),
    /// A call to the movie database failed: what was attempted, then the cause.
    RestClientError(String, String),
    /// The catalog has no genre of this name.
    GenreIdNotFoundError(String),
    /// No home directory could be located for the state file.
    HomeDirectoryError,
    /// The set of opened movies could not be written as JSON.
    SerdeJsonSerializeError(String),
    /// The state file exists but does not hold a set of movie ids.
    SerdeJsonDeserializeError(String),
    /// The state file could not be opened, created or flushed.
    IOError(String),
    /// The logger could not be installed.
    EnvLogError(String),
    /// The event loop for the HTTP client could not be created.
    ReactorInitializeError(String),
}

/// An error with its texts as character sequences.
pub enum AppErrorView {
    APIKeyError(Seq<char>),
    RestClientError(Seq<char>, Seq<char>),
    GenreIdNotFoundError(Seq<char>),
    HomeDirectoryError,
    SerdeJsonSerializeError(Seq<char>),
    SerdeJsonDeserializeError(Seq<char>),
    IOError(Seq<char>),
    EnvLogError(Seq<char>),
    ReactorInitializeError(Seq<char>),
}

impl View for AppError {
    type V = AppErrorView;

    open spec fn view(&self) -> AppErrorView {
        match self {
            AppError::APIKeyError(cause) => AppErrorView::APIKeyError(cause@),
            AppError::RestClientError(msg, cause) => AppErrorView::RestClientError(msg@, cause@),
            AppError::GenreIdNotFoundError(name) => AppErrorView::GenreIdNotFoundError(name@),
            AppError::HomeDirectoryError => AppErrorView::HomeDirectoryError,
            AppError::SerdeJsonSerializeError(cause) => AppErrorView::SerdeJsonSerializeError(
                cause@,
            ),
            AppError::SerdeJsonDeserializeError(cause) => AppErrorView::SerdeJsonDeserializeError(
                cause@,
            ),
            AppError::IOError(cause) => AppErrorView::IOError(cause@),
            AppError::EnvLogError(cause) => AppErrorView::EnvLogError(cause@),
            AppError::ReactorInitializeError(cause) => AppErrorView::ReactorInitializeError(
                cause@,
            ),
        }
    }
}

/// A cause as it is shown below a headline: indented by four spaces.
pub open spec fn indented(cause: Seq<char>) -> Seq<char> {
    "    "@ + cause
}

impl AppErrorView {
    /// The diagnostic for this error, line by line.
    pub open spec fn report(self) -> Seq<Seq<char>> {
        match self {
            AppErrorView::APIKeyError(cause) => seq![
                "Error: TMD API key TMD_API_V3 is not set in env!"@,
                "    TMD API key can be obtained at https://developers.themoviedb.org/3/getting-started"@,
                indented(cause),
            ],
            AppErrorView::RestClientError(msg, cause) => seq![msg, indented(cause)],
            AppErrorView::GenreIdNotFoundError(name) => seq![
                "Error: id cannot be found for genre name: "@ + name,
            ],
            AppErrorView::HomeDirectoryError => seq!["Error: home directory cannot be located."@],
            AppErrorView::SerdeJsonSerializeError(cause) => seq![
                "Error: cannot save to data file"@,
                indented(cause),
            ],
            AppErrorView::SerdeJsonDeserializeError(cause) => seq![
                "Error: cannot load from data file"@,
                indented(cause),
            ],
            AppErrorView::IOError(cause) => seq!["Error: IO error"@, indented(cause)],
            AppErrorView::EnvLogError(cause) => seq![
                "Error: cannot initialize env log:"@,
                indented(cause),
            ],
            AppErrorView::ReactorInitializeError(cause) => seq![
                "Error: cannot initialize reactor Core:"@,
                indented(cause),
            ],
        }
    }
}

impl AppError {
    /// Renders the diagnostic for this error: one string per line, in the
    /// order in which the lines are to be logged.
    pub fn report_error(&self) -> (lines: Vec<String>)
        ensures
            lines.deep_view() == self@.report(),
    {
        let mut lines: Vec<String> = Vec::new();
        match self {
            AppError::APIKeyError(cause) => {
                lines.push(String::from_str("Error: TMD API key TMD_API_V3 is not set in env!"));
                lines.push(
                    String::from_str(
                        "    TMD API key can be obtained at https://developers.themoviedb.org/3/getting-started",
                    ),
                );
                lines.push(indent(cause));
            },
            AppError::RestClientError(msg, cause) => {
                lines.push(msg.clone());
                lines.push(indent(cause));
            },
            AppError::GenreIdNotFoundError(name) => {
                lines.push(
                    String::from_str("Error: id cannot be found for genre name: ").concat(
                        name.as_str(),
                    ),
                );
            },
            AppError::HomeDirectoryError => {
                lines.push(String::from_str("Error: home directory cannot be located."));
            },
            AppError::SerdeJsonSerializeError(cause) => {
                lines.push(String::from_str("Error: cannot save to data file"));
                lines.push(indent(cause));
            },
            AppError::SerdeJsonDeserializeError(cause) => {
                lines.push(String::from_str("Error: cannot load from data file"));
                lines.push(indent(cause));
            },
            AppError::IOError(cause) => {
                lines.push(String::from_str("Error: IO error"));
                lines.push(indent(cause));
            },
            AppError::EnvLogError(cause) => {
                lines.push(String::from_str("Error: cannot initialize env log:"));
                lines.push(indent(cause));
            },
            AppError::ReactorInitializeError(cause) => {
                lines.push(String::from_str("Error: cannot initialize reactor Core:"));
                lines.push(indent(cause));
            },
        }
        assert(lines.deep_view() =~= self@.report());
        lines
    }
}

/// A cause, indented for display below a headline.
fn indent(cause: &String) -> (line: String)
    ensures
        line@ == indented(cause@),
{
    String::from_str("    ").concat(cause.as_str())
}

} // verus!
