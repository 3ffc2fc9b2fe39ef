//! The two calls to the movie database: what is sent, and how a call that
//! went wrong is reported.

use crate::error::{AppError, AppErrorView};
use crate::text::{decimal, decimal_string};
use vstd::prelude::*;
use vstd::string::*;

verus! {

/// Address of the genre catalog.
pub const TMD_API_MOVIE_GENRES_URL: &'static str = "https://api.themoviedb.org/3/genre/movie/list";

/// Address of the paged list of upcoming releases.
pub const TMD_API_MOVIE_UPCOMING_URL: &'static str = "https://api.themoviedb.org/3/movie/upcoming";

/// Name of the environment variable from which the API key is taken.
pub const TMD_API_V3_ENV_KEY_NAME: &'static str = "TMD_API_V3";

/// Name of the query parameter that carries the API key.
pub const TMD_API_KEY_QUERY_PARAM_NAME: &'static str = "api_key";

/// A GET request: the address and the query parameters, in the order in
/// which they are attached.
#[derive(Debug, PartialEq, Eq)]
pub struct Request {
    pub url: String,
    pub query: Vec<(String, String)>,
}

/// A request as plain text.
pub struct RequestView {
    pub url: Seq<char>,
    pub query: Seq<(Seq<char>, Seq<char>)>,
}

impl View for Request {
    type V = RequestView;

    open spec fn view(&self) -> RequestView {
        RequestView { url: self.url@, query: self.query.deep_view() }
    }
}

/// Why a call to the movie database gave no usable answer.
#[derive(Debug, PartialEq, Eq)]
pub enum RemoteFailure {
    /// The request could not be carried out; the payload is the cause.
    Transport(String),
    /// An answer came, but its status does not say success; the payload is
    /// the status. What the body holds does not matter then.
    Status(u16),
    /// An answer came, but its body does not have the expected shape.
    Decode(String),
}

/// The cause that is reported for an answer with the status `status`.
pub open spec fn status_cause(status: u16) -> Seq<char> {
    "response status "@ + decimal(status as nat)
}

/// The request for the genre catalog: the key, then `language=en-US`.
pub open spec fn genre_request_spec(key: Seq<char>) -> RequestView {
    RequestView {
        url: TMD_API_MOVIE_GENRES_URL@,
        query: seq![(TMD_API_KEY_QUERY_PARAM_NAME@, key), ("language"@, "en-US"@)],
    }
}

/// The request for one page of upcoming releases: the key, `language=en-US`,
/// the page number in decimal, and `region=US`.
pub open spec fn upcoming_request_spec(page: u32, key: Seq<char>) -> RequestView {
    RequestView {
        url: TMD_API_MOVIE_UPCOMING_URL@,
        query: seq![
            (TMD_API_KEY_QUERY_PARAM_NAME@, key),
            ("language"@, "en-US"@),
            ("page"@, decimal(page as nat)),
            ("region"@, "US"@),
        ],
    }
}

/// Whether an answer with the status `status` counts as success: exactly
/// the statuses from 200 to 299 do.
pub fn is_success(status: u16) -> (ok: bool)
    ensures
        ok == (200 <= status < 300),
{
    200 <= status && status < 300
}

/// Looks at the status of an answer before anything is made of its body: an
/// answer whose status does not say success is a failed call.
pub fn check_status(status: u16) -> (checked: Result<(), RemoteFailure>)
    ensures
        checked == if 200 <= status < 300 {
            Ok::<(), RemoteFailure>(())
        } else {
            Err::<(), RemoteFailure>(RemoteFailure::Status(status))
        },
{
    if is_success(status) {
        Ok(())
    } else {
        Err(RemoteFailure::Status(status))
    }
}

/// Renders the cause for an answer with the status `status`.
fn status_text(status: u16) -> (cause: String)
    ensures
        cause@ == status_cause(status),
{
    let number = decimal_string(status as u64);
    String::from_str("response status ").concat(number.as_str())
}

/// The error that a failed call for the genre catalog is reported as.
pub open spec fn genre_failure_spec(failure: RemoteFailure) -> AppErrorView {
    match failure {
        RemoteFailure::Transport(cause) => AppErrorView::RestClientError(
            "Error: cannot get movie genres"@,
            cause@,
        ),
        RemoteFailure::Status(status) => AppErrorView::RestClientError(
            "Error: cannot get movie genres"@,
            status_cause(status),
        ),
        RemoteFailure::Decode(cause) => AppErrorView::RestClientError(
            "Error: cannot parse movie genre response to json"@,
            cause@,
        ),
    }
}

/// The error that a failed call for page `page` of the upcoming releases is
/// reported as. The message names the page.
pub open spec fn upcoming_failure_spec(page: u32, failure: RemoteFailure) -> AppErrorView {
    match failure {
        RemoteFailure::Transport(cause) => AppErrorView::RestClientError(
            "Error: cannot get upcoming movies for page "@ + decimal(page as nat),
            cause@,
        ),
        RemoteFailure::Status(status) => AppErrorView::RestClientError(
            "Error: cannot get upcoming movies for page "@ + decimal(page as nat),
            status_cause(status),
        ),
        RemoteFailure::Decode(cause) => AppErrorView::RestClientError(
            "Error: cannot parse upcoming movie response to json for page "@ + decimal(
                page as nat,
            ),
            cause@,
        ),
    }
}

/// One query parameter.
fn param(name: &str, value: &str) -> (p: (String, String))
    ensures
        p.deep_view() == (name@, value@),
{
    (String::from_str(name), String::from_str(value))
}

/// Builds the request for the genre catalog.
pub fn genre_request(key: &str) -> (request: Request)
    ensures
        request@ == genre_request_spec(key@),
{
    let mut query: Vec<(String, String)> = Vec::new();
    query.push(param(TMD_API_KEY_QUERY_PARAM_NAME, key));
    query.push(param("language", "en-US"));
    let request = Request { url: String::from_str(TMD_API_MOVIE_GENRES_URL), query };
    assert(request@.query =~= genre_request_spec(key@).query);
    request
}

/// Builds the request for page `page` of the upcoming releases.
pub fn upcoming_request(page: u32, key: &str) -> (request: Request)
    ensures
        request@ == upcoming_request_spec(page, key@),
{
    let number = decimal_string(page as u64);
    let mut query: Vec<(String, String)> = Vec::new();
    query.push(param(TMD_API_KEY_QUERY_PARAM_NAME, key));
    query.push(param("language", "en-US"));
    query.push(param("page", number.as_str()));
    query.push(param("region", "US"));
    let request = Request { url: String::from_str(TMD_API_MOVIE_UPCOMING_URL), query };
    assert(request@.query =~= upcoming_request_spec(page, key@).query);
    request
}

/// Turns a failed call for the genre catalog into the error of the run.
pub fn genre_failure(failure: RemoteFailure) -> (error: AppError)
    ensures
        error@ == genre_failure_spec(failure),
{
    match failure {
        RemoteFailure::Transport(cause) => AppError::RestClientError(
            String::from_str("Error: cannot get movie genres"),
            cause,
        ),
        RemoteFailure::Status(status) => AppError::RestClientError(
            String::from_str("Error: cannot get movie genres"),
            status_text(status),
        ),
        RemoteFailure::Decode(cause) => AppError::RestClientError(
            String::from_str("Error: cannot parse movie genre response to json"),
            cause,
        ),
    }
}

/// Turns a failed call for page `page` of the upcoming releases into the
/// error of the run.
pub fn upcoming_failure(page: u32, failure: RemoteFailure) -> (error: AppError)
    ensures
        error@ == upcoming_failure_spec(page, failure),
{
    let number = decimal_string(page as u64);
    match failure {
        RemoteFailure::Transport(cause) => AppError::RestClientError(
            String::from_str("Error: cannot get upcoming movies for page ").concat(
                number.as_str(),
            ),
            cause,
        ),
        RemoteFailure::Status(status) => AppError::RestClientError(
            String::from_str("Error: cannot get upcoming movies for page ").concat(
                number.as_str(),
            ),
            status_text(status),
        ),
        RemoteFailure::Decode(cause) => AppError::RestClientError(
            String::from_str("Error: cannot parse upcoming movie response to json for page ").concat(
                number.as_str(),
            ),
            cause,
        ),
    }
}

} // verus!
