//! The table of tutorial guides.

use crate::exceldb::id_index::build_index;
use crate::exceldb::id_index::find_position;
use crate::exceldb::id_index::indexes;
use crate::exceldb::id_index::last_position;
use std::collections::HashMap;
use vstd::prelude::*;

verus! {

/// One tutorial guide.
#[derive(Debug, Clone)]
pub struct Guide {
    pub desc: String,
    pub id: i32,
    pub interrupt_finish: i32,
    pub invalid: String,
    pub is_online: i32,
    pub parallel: i32,
    pub priority: i32,
    pub restart: i32,
    pub trigger: String,
}

/// The identifiers of the guides, in order.
pub open spec fn guide_ids(records: Seq<Guide>) -> Seq<i32> {
    Seq::new(records.len(), |i: int| records[i].id)
}

/// The guides in file order, found by identifier.
pub struct GuideTable {
    records: Vec<Guide>,
    by_id: HashMap<i32, usize>,
}

impl GuideTable {
    #[verifier::type_invariant]
    spec fn well_formed(&self) -> bool {
        indexes(self.by_id@, guide_ids(self.records@))
    }

    /// The guides, in file order.
    pub closed spec fn records(&self) -> Seq<Guide> {
        self.records@
    }

    /// The guide that `get` finds: the last one with the identifier.
    pub open spec fn found(&self, id: i32) -> Option<Guide> {
        match last_position(guide_ids(self.records()), id) {
            Some(at) => Some(self.records()[at]),
            None => None,
        }
    }

    /// Makes the table of the given guides.
    pub fn from_records(records: Vec<Guide>) -> (table: Self)
        ensures
            table.records() == records@,
    {
        let n = records.len();
        let mut ids: Vec<i32> = Vec::with_capacity(n);
        let mut i: usize = 0;
        while i < n
            invariant
                n == records@.len(),
                i <= n,
                ids@ == guide_ids(records@).subrange(0, i as int),
            decreases n - i,
        {
            ids.push(records[i].id);
            i = i + 1;
            assert(ids@ =~= guide_ids(records@).subrange(0, i as int));
        }
        assert(ids@ =~= guide_ids(records@));
        let by_id = build_index(&ids);
        GuideTable { records, by_id }
    }

    /// The guide with the identifier; the last one where several share it.
    pub fn get(&self, id: i32) -> (guide: Option<&Guide>)
        ensures
            guide matches Some(g) ==> self.found(id) == Some(*g),
            guide is None ==> self.found(id) is None,
    {
        proof {
            use_type_invariant(self);
        }
        match find_position(&self.by_id, Ghost(guide_ids(self.records@)), id) {
            Some(at) => Some(&self.records[at]),
            None => None,
        }
    }

    /// All guides, in file order.
    pub fn all(&self) -> (guides: &[Guide])
        ensures
            guides@ == self.records(),
    {
        self.records.as_slice()
    }

    /// An iterator over the guides, in file order.
    pub fn iter(&self) -> (guides: std::slice::Iter<'_, Guide>)
        ensures
            vstd::std_specs::slice::into_iter_elts(guides) == self.records(),
    {
        self.records.as_slice().iter()
    }

    /// Number of guides.
    pub fn len(&self) -> (n: usize)
        ensures
            n == self.records().len(),
    {
        self.records.len()
    }

    /// Whether the table holds no guide.
    pub fn is_empty(&self) -> (empty: bool)
        ensures
            empty == (self.records().len() == 0),
    {
        self.records.is_empty()
    }
}

} // verus!
