//! Default database path resolution.
//!
//! The library decides where the database lives; composing the directory and
//! the file name into an operating-system path is left to the platform's own
//! path type, whose separator rules differ between systems.

use vstd::prelude::*;
use crate::error::{DbStep, LocalResult, failure, failure_view};

verus! {

/// The default database filename.
pub const DB_FILENAME: &'static str = "vertebrae.db";

/// Where the database lives.
#[derive(Debug, Clone, PartialEq, Eq)]
pub enum DbLocation<D> {
    /// Exactly this path, as given by the `VTB_DB_PATH` override.
    Override(String),
    /// The file `file_name` inside the directory `dir`.
    InDirectory { dir: D, file_name: &'static str },
}

/// The database path that the `VTB_DB_PATH` override gives, if any: the
/// override counts only when it is set and non-empty.
pub open spec fn override_path(env_override: Option<String>) -> Option<Seq<char>> {
    match env_override {
        Some(p) => if p@.len() > 0 { Some(p@) } else { None },
        None => None,
    }
}

/// Any set, non-empty override is the database path, whatever it holds
/// (relative or absolute); an unset or empty override gives no path.
pub proof fn lemma_override_is_any_non_empty_value(env_override: Option<String>)
    ensures
        (env_override matches Some(p) && p@.len() > 0) ==> override_path(env_override) == Some(
            env_override->Some_0@,
        ),
        !(env_override matches Some(p) && p@.len() > 0) ==> override_path(env_override) is None,
{
}

/// Resolves the default database location.
///
/// `env_override` is the value of the `VTB_DB_PATH` environment variable
/// (`None` when it is unset or not valid Unicode); `data_dir` is the per-user
/// data directory, or the text of the error that resolving it gave.
/// Resolution order: a set, non-empty override; otherwise the file
/// `vertebrae.db` inside the data directory.
pub fn default_db_path<D>(env_override: Option<String>, data_dir: Result<D, String>) -> (r:
    LocalResult<DbLocation<D>>)
    ensures
        (env_override matches Some(p) && p@.len() > 0) ==> (r matches Ok(DbLocation::Override(q))
            && q@ == env_override->Some_0@),
        !(env_override matches Some(p) && p@.len() > 0) ==> match data_dir {
            Ok(d) => (r matches Ok(DbLocation::InDirectory { dir, file_name }) && dir == d
                && file_name@ == "vertebrae.db"@),
            Err(m) => (r matches Err(e) && e@ == failure_view(DbStep::ResolveDataDir, m@)),
        },
        match override_path(env_override) {
            Some(p) => r matches Ok(DbLocation::Override(q)) && q@ == p,
            None => match data_dir {
                Ok(d) => r matches Ok(DbLocation::InDirectory { dir, file_name }) && dir == d
                    && file_name@ == DB_FILENAME@,
                Err(m) => r matches Err(e) && e@ == failure_view(DbStep::ResolveDataDir, m@),
            },
        },
{
    if let Some(path) = env_override {
        if !path.as_str().is_empty() {
            return Ok(DbLocation::Override(path));
        }
    }
    match data_dir {
        Ok(dir) => Ok(DbLocation::InDirectory { dir, file_name: DB_FILENAME }),
        Err(m) => Err(failure(&DbStep::ResolveDataDir, m.as_str())),
    }
}

} // verus!
