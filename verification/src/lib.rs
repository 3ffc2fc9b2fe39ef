//! Notification core for upcoming movie releases.
//!
//! The crate holds the decisions of a small command-line notifier: which
//! requests go to the movie database, how the pages of upcoming releases are
//! gathered into one collection, which releases belong to a genre, and which
//! of them have not been shown to the user before. Everything here is pure:
//! the caller performs the requests, reads and writes the state file, prints,
//! and opens the browser.

pub mod error;
pub mod fetch;
pub mod filter;
pub mod genres;
pub mod json;
pub mod model;
pub mod notify;
pub mod pipeline;
pub mod remote;
pub mod seen;
pub mod text;
