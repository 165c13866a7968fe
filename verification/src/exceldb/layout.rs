//! Where a table file keeps its records.
//!
//! A table file is a JSON document. Its records are the document itself, or,
//! where the document is a list whose second entry is a list, that entry: the
//! first entry then names the table.

use vstd::prelude::*;

verus! {

/// The part of a table file that holds the records.
#[derive(Debug, Clone, Copy, PartialEq, Eq, Structural)]
pub enum RecordsAt {
    /// The records are the second entry of the document.
    SecondEntry,
    /// The records are the whole document.
    Document,
}

/// Finds the records of a table file from the shape of its document:
/// `entries` is the number of entries where the document is a list, and
/// `second_is_list` says whether the second entry, if there is one, is a list.
pub fn records_at(entries: Option<usize>, second_is_list: bool) -> (at: RecordsAt)
    ensures
        at == if entries matches Some(n) && n >= 2 && second_is_list {
            RecordsAt::SecondEntry
        } else {
            RecordsAt::Document
        },
{
    match entries {
        Some(n) => if n >= 2 && second_is_list {
            RecordsAt::SecondEntry
        } else {
            RecordsAt::Document
        },
        None => RecordsAt::Document,
    }
}

} // verus!
