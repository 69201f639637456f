//! Where the file-backed service keeps its link table on disk, and the flush of
//! the table to that file.

use bincode::ErrorKind;
use vstd::prelude::*;

use crate::tables::{link_table, lists_entries, LinkTable};
use crate::utils::{bincode_pairs, save_bincode};
use crate::pairs_view;

verus! {

/// Why no storage path could be chosen.
#[derive(Debug, Clone, Copy, PartialEq, Eq)]
pub enum StoragePathError {
    /// The configuration has not been loaded yet.
    ConfigNotSet,
    /// Neither the configuration nor `DATABASE_URI` names a file.
    DatabaseUriNotSet,
}

/// The path of the link file: the one already chosen, if any; else the
/// configured database; else `DATABASE_URI` from the environment. Where the
/// configuration is not loaded, or nothing names a file, the error says which;
/// the server stops on it.
pub fn init_db_storage(
    current: Option<String>,
    config_database: Option<Option<String>>,
    env_database_uri: Option<String>,
) -> (r: Result<String, StoragePathError>)
    ensures
        current matches Some(p) ==> (r matches Ok(q) && q@ == p@),
        current is None ==> match config_database {
            None => r == Err::<String, StoragePathError>(StoragePathError::ConfigNotSet),
            Some(Some(d)) => r matches Ok(q) && q@ == d@,
            Some(None) => match env_database_uri {
                Some(u) => r matches Ok(q) && q@ == u@,
                None => r == Err::<String, StoragePathError>(StoragePathError::DatabaseUriNotSet),
            },
        },
{
    if let Some(path) = current {
        return Ok(path);
    }
    match config_database {
        None => Err(StoragePathError::ConfigNotSet),
        Some(Some(d)) => Ok(d),
        Some(None) => match env_database_uri {
            Some(u) => Ok(u),
            None => Err(StoragePathError::DatabaseUriNotSet),
        },
    }
}

/// The bytes to flush the link table to disk with.
pub fn flush_urls(urls: &LinkTable) -> (r: Result<Vec<u8>, Box<ErrorKind>>)
    ensures
        r is Ok,
        r matches Ok(bytes) ==> exists|pairs: Seq<(String, String)>|
            lists_entries(pairs, link_table(*urls)) && bytes@ == bincode_pairs(pairs_view(pairs)),
{
    save_bincode(urls)
}

} // verus!
