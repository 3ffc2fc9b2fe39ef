//! The set of movies whose pages were opened, and its form in the state
//! file: a JSON array of the movie ids.
//!
//! The caller reads and writes the file. What it found is handed over as a
//! `StateFile`, and how a write went as a `WriteOutcome`.

use crate::error::{AppError, AppErrorView};
use crate::json::{
    error_text,
    id_array,
    is_id_array,
    json_id_set,
    lists_ids,
    read_id_set,
    write_id_set,
};
use std::collections::HashSet;
use vstd::prelude::*;

verus! {

/// Name of the state file, which lies in the user's home directory.
pub const DATA_FILE_PATH: &'static str = ".movie_alert";

/// What the caller found at the place of the state file.
#[derive(Debug, PartialEq, Eq)]
pub enum StateFile {
    /// There is no file.
    Missing,
    /// There is a file, but it could not be opened; the payload is the cause.
    OpenFailed(String),
    /// The file was opened, but reading it failed; the payload is the cause.
    ReadFailed(String),
    /// The whole content of the file.
    Content(Vec<u8>),
}

/// How writing the state file went.
#[derive(Debug, PartialEq, Eq)]
pub enum WriteOutcome {
    /// The bytes were written and flushed.
    Written,
    /// The file could not be created; the payload is the cause.
    CreateFailed(String),
    /// Writing the bytes failed; the payload is the cause.
    WriteFailed(String),
    /// Flushing failed; the payload is the cause.
    FlushFailed(String),
}

/// Whether `bytes` are a form of the set `opened` in the state file: reading
/// them gives back exactly this set.
pub open spec fn holds_set(bytes: Seq<u8>, opened: Set<u32>) -> bool {
    json_id_set(bytes) == Some(opened)
}

/// The set that loading gives for what was found at the place of the state
/// file, or nothing where loading fails. No file stands for the empty set.
pub open spec fn loaded_set(file: StateFile) -> Option<Set<u32>> {
    match file {
        StateFile::Missing => Some(Set::empty()),
        StateFile::OpenFailed(_) => None,
        StateFile::ReadFailed(_) => None,
        StateFile::Content(bytes) => json_id_set(bytes@),
    }
}

/// Whether `error` is the error with which loading fails for `file`. A file
/// that cannot be opened is an I/O error. A file that cannot be read, or
/// whose content is no JSON array of movie ids, is a failure to load the
/// set; for a content that is refused the text of the cause is left open.
pub open spec fn is_load_error(file: StateFile, error: AppErrorView) -> bool {
    match file {
        StateFile::Missing => false,
        StateFile::OpenFailed(cause) => error == AppErrorView::IOError(cause@),
        StateFile::ReadFailed(cause) => error == AppErrorView::SerdeJsonDeserializeError(cause@),
        StateFile::Content(_) => error is SerdeJsonDeserializeError,
    }
}

/// Saving and loading again gives the same set: a file whose content stands
/// for a set loads as that set, the empty set included.
pub proof fn lemma_load_after_save(opened: Set<u32>, file: StateFile)
    requires
        file matches StateFile::Content(bytes) && holds_set(bytes@, opened),
    ensures
        loaded_set(file) == Some(opened),
{
}

/// Loads the set of opened movies from what was found at the place of the
/// state file. No file means that no page was opened yet. A file that cannot
/// be read, or whose content is no JSON array of movie ids, is an error: it
/// is never taken for an empty set.
pub fn load_opened_movie_set(file: StateFile) -> (loaded: Result<HashSet<u32>, AppError>)
    ensures
        match loaded {
            Ok(opened) => loaded_set(file) == Some(opened@),
            Err(error) => loaded_set(file) is None && is_load_error(file, error@),
        },
{
    match file {
        StateFile::Missing => Ok(HashSet::new()),
        StateFile::OpenFailed(cause) => Err(AppError::IOError(cause)),
        StateFile::ReadFailed(cause) => Err(AppError::SerdeJsonDeserializeError(cause)),
        StateFile::Content(bytes) => match read_id_set(bytes.as_slice()) {
            Ok(opened) => Ok(opened),
            Err(error) => Err(AppError::SerdeJsonDeserializeError(error_text(&error))),
        },
    }
}

/// Renders the set of opened movies for the state file. Rendering always
/// succeeds. The bytes are the compact JSON array of the ids, each written
/// once, and they hold the whole set: loading them gives it back.
pub fn save_opened_movie_set(opened_set: &HashSet<u32>) -> (saved: Result<Vec<u8>, AppError>)
    ensures
        saved matches Ok(bytes) && is_id_array(bytes@, opened_set@) && holds_set(
            bytes@,
            opened_set@,
        ),
{
    match write_id_set(opened_set) {
        Ok(bytes) => Ok(bytes),
        Err(error) => Err(AppError::SerdeJsonSerializeError(error_text(&error))),
    }
}

/// Where a set has no id or one id, its form in the state file is fixed:
/// `[]` for the empty set, and `[` the id `]` for the set of one id.
pub proof fn lemma_small_sets_have_one_form(bytes: Seq<u8>, opened: Set<u32>)
    requires
        is_id_array(bytes, opened),
    ensures
        opened == Set::<u32>::empty() ==> bytes == id_array(Seq::empty()),
        forall|id: u32| opened == set![id] ==> bytes == id_array(seq![id]),
{
    let order = choose|order: Seq<u32>| #[trigger] lists_ids(order, opened) && bytes == id_array(order);
    if opened == Set::<u32>::empty() {
        assert(order =~= Seq::<u32>::empty());
    }
    assert forall|id: u32| opened == set![id] implies bytes == id_array(seq![id]) by {
        assert(set![id].len() == 1);
        assert(order.to_set().contains(order[0]));
        assert(order =~= seq![id]);
    }
}

/// The error, if any, with which writing the state file ends the run.
pub open spec fn write_result_spec(outcome: WriteOutcome) -> Result<(), AppErrorView> {
    match outcome {
        WriteOutcome::Written => Ok(()),
        WriteOutcome::CreateFailed(cause) => Err(AppErrorView::IOError(cause@)),
        WriteOutcome::WriteFailed(cause) => Err(AppErrorView::SerdeJsonSerializeError(cause@)),
        WriteOutcome::FlushFailed(cause) => Err(AppErrorView::IOError(cause@)),
    }
}

/// Turns the way in which writing the state file went into the result of
/// saving. A file that cannot be created or flushed is an I/O error; bytes
/// that cannot be written are a failure to save the set.
pub fn write_result(outcome: WriteOutcome) -> (result: Result<(), AppError>)
    ensures
        match result {
            Ok(_) => write_result_spec(outcome) is Ok,
            Err(error) => write_result_spec(outcome) == Err::<(), AppErrorView>(error@),
        },
{
    match outcome {
        WriteOutcome::Written => Ok(()),
        WriteOutcome::CreateFailed(cause) => Err(AppError::IOError(cause)),
        WriteOutcome::WriteFailed(cause) => Err(AppError::SerdeJsonSerializeError(cause)),
        WriteOutcome::FlushFailed(cause) => Err(AppError::IOError(cause)),
    }
}

} // verus!
