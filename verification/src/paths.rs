//! The database-file location, held in an explicit once-set cell that the
//! shell owns and passes around, in place of hidden global state.

use vstd::prelude::*;

verus! {

/// A cell that takes the database path once and keeps it.
pub struct DbPathCell {
    pub path: Option<String>,
}

impl DbPathCell {
    /// A cell with no path set yet.
    pub fn new() -> (r: DbPathCell)
        ensures
            r.path is None,
    {
        DbPathCell { path: None }
    }
}

/// Set the database path if none is set; a second set is silently ignored,
/// so the first initialization wins.
pub fn init_db_path(cell: &mut DbPathCell, path: String)
    ensures
        final(cell).path == if old(cell).path is Some {
            old(cell).path
        } else {
            Some(path)
        },
{
    match cell.path {
        Some(_) => (),
        None => {
            cell.path = Some(path);
        },
    }
}

/// The database path; callers must have initialized it first.
pub fn get_db_path(cell: &DbPathCell) -> (r: &String)
    requires
        cell.path is Some,
    ensures
        cell.path == Some(*r),
{
    match &cell.path {
        Some(p) => p,
        None => unreached(),
    }
}

} // verus!
