//! Teams of heroes and their stored snapshots.

use vstd::prelude::*;

verus! {

/// The equipment in one slot of a team.
#[derive(Debug, Clone)]
pub struct HeroGroupEquip {
    pub index: i32,
    pub equip_uids: Vec<i64>,
}

/// One team of heroes.
#[derive(Debug, Clone)]
pub struct HeroGroupInfo {
    pub group_id: i32,
    pub hero_list: Vec<i64>,
    pub name: String,
    pub cloth_id: i32,
    pub equips: Vec<HeroGroupEquip>,
    pub activity104_equips: Vec<HeroGroupEquip>,
    pub assist_boss_id: i32,
}

/// A stored team of a snapshot, without its members.
#[derive(Debug, Clone)]
pub struct HeroGroupSnapshotGroup {
    pub id: i64,
    pub snapshot_id: i64,
    pub group_id: i32,
    pub name: String,
    pub cloth_id: i32,
    pub assist_boss_id: i32,
}

/// The slots that occur among rows of (slot, equipment), each once, in the
/// order in which they first occur.
pub open spec fn slots_of(rows: Seq<(i32, i64)>) -> Seq<i32>
    decreases rows.len(),
{
    if rows.len() == 0 {
        Seq::<i32>::empty()
    } else {
        let before = slots_of(rows.drop_last());
        if before.contains(rows.last().0) {
            before
        } else {
            before.push(rows.last().0)
        }
    }
}

/// The equipment of one slot, in row order.
pub open spec fn equipment_of(rows: Seq<(i32, i64)>, slot: i32) -> Seq<i64>
    decreases rows.len(),
{
    if rows.len() == 0 {
        Seq::<i64>::empty()
    } else {
        let before = equipment_of(rows.drop_last(), slot);
        if rows.last().0 == slot {
            before.push(rows.last().1)
        } else {
            before
        }
    }
}

/// Whether the list is the rows grouped by slot: one entry for each slot in
/// order of first occurrence, holding the slot's equipment in row order.
pub open spec fn equips_of(equips: Seq<HeroGroupEquip>, rows: Seq<(i32, i64)>) -> bool {
    &&& equips.len() == slots_of(rows).len()
    &&& forall|k: int|
        0 <= k < equips.len() ==> {
            &&& (#[trigger] equips[k]).index == slots_of(rows)[k]
            &&& equips[k].equip_uids@ == equipment_of(rows, slots_of(rows)[k])
        }
}

/// No slot occurs twice among the slots of the rows.
pub proof fn lemma_slots_distinct(rows: Seq<(i32, i64)>)
    ensures
        slots_of(rows).no_duplicates(),
    decreases rows.len(),
{
    if rows.len() > 0 {
        lemma_slots_distinct(rows.drop_last());
    }
}

/// A slot that does not occur among the slots of the rows has no equipment.
pub proof fn lemma_absent_slot_is_empty(rows: Seq<(i32, i64)>, slot: i32)
    requires
        !slots_of(rows).contains(slot),
    ensures
        equipment_of(rows, slot).len() == 0,
    decreases rows.len(),
{
    if rows.len() > 0 {
        let before = slots_of(rows.drop_last());
        if before.contains(rows.last().0) {
            assert(slots_of(rows) == before);
            lemma_absent_slot_is_empty(rows.drop_last(), slot);
        } else {
            assert(slots_of(rows).last() == rows.last().0);
            assert(rows.last().0 != slot);
            assert(!before.contains(slot)) by {
                if before.contains(slot) {
                    let k = choose|k: int| 0 <= k < before.len() && before[k] == slot;
                    assert(slots_of(rows)[k] == slot);
                }
            }
            lemma_absent_slot_is_empty(rows.drop_last(), slot);
        }
    }
}

fn find_slot(equips: &Vec<HeroGroupEquip>, slot: i32) -> (at: Option<usize>)
    ensures
        match at {
            Some(k) => k < equips@.len() && equips@[k as int].index == slot,
            None => forall|k: int| 0 <= k < equips@.len() ==> equips@[k].index != slot,
        },
{
    let n = equips.len();
    let mut k: usize = 0;
    while k < n
        invariant
            n == equips@.len(),
            k <= n,
            forall|j: int| 0 <= j < k ==> equips@[j].index != slot,
        decreases n - k,
    {
        if equips[k].index == slot {
            return Some(k);
        }
        k = k + 1;
    }
    None
}

/// Groups rows of (slot, equipment) by slot.
///
/// The entries come in the order in which their slots first occur; each holds
/// the slot's equipment in row order.
pub fn group_equips(rows: &Vec<(i32, i64)>) -> (equips: Vec<HeroGroupEquip>)
    ensures
        equips_of(equips@, rows@),
{
    let mut equips: Vec<HeroGroupEquip> = Vec::new();
    let n = rows.len();
    let mut i: usize = 0;
    proof {
        assert(rows@.subrange(0, 0) =~= Seq::<(i32, i64)>::empty());
    }
    while i < n
        invariant
            n == rows@.len(),
            i <= n,
            equips_of(equips@, rows@.subrange(0, i as int)),
        decreases n - i,
    {
        let ghost before = rows@.subrange(0, i as int);
        let ghost longer = rows@.subrange(0, i + 1);
        let ghost old_equips = equips@;
        let row = rows[i];
        let slot = row.0;
        proof {
            assert(longer.drop_last() =~= before);
            assert(longer.last() == row);
            lemma_slots_distinct(before);
        }
        match find_slot(&equips, slot) {
            Some(k) => {
                proof {
                    assert(slots_of(before)[k as int] == slot);
                    assert(slots_of(before).contains(slot));
                }
                equips[k].equip_uids.push(row.1);
                proof {
                    assert forall|j: int| 0 <= j < equips@.len() implies {
                        &&& (#[trigger] equips@[j]).index == slots_of(longer)[j]
                        &&& equips@[j].equip_uids@ == equipment_of(longer, slots_of(longer)[j])
                    } by {
                        assert(old_equips[j].index == slots_of(before)[j]);
                        if j != k {
                            assert(equips@[j] == old_equips[j]);
                        }
                    }
                }
            },
            None => {
                proof {
                    assert(!slots_of(before).contains(slot)) by {
                        if slots_of(before).contains(slot) {
                            let j = choose|j: int|
                                0 <= j < slots_of(before).len() && slots_of(before)[j] == slot;
                            assert(old_equips[j].index == slot);
                        }
                    }
                    lemma_absent_slot_is_empty(before, slot);
                }
                let mut equip_uids: Vec<i64> = Vec::new();
                equip_uids.push(row.1);
                equips.push(HeroGroupEquip { index: slot, equip_uids });
                proof {
                    assert(equipment_of(longer, slot) =~= seq![row.1]);
                    assert forall|j: int| 0 <= j < equips@.len() implies {
                        &&& (#[trigger] equips@[j]).index == slots_of(longer)[j]
                        &&& equips@[j].equip_uids@ == equipment_of(longer, slots_of(longer)[j])
                    } by {
                        if j < old_equips.len() {
                            assert(equips@[j] == old_equips[j]);
                            assert(old_equips[j].index == slots_of(before)[j]);
                            assert(slots_of(before).contains(slots_of(before)[j]));
                        }
                    }
                }
            },
        }
        i = i + 1;
    }
    proof {
        assert(rows@.subrange(0, n as int) =~= rows@);
    }
    equips
}

/// Makes the team of a stored snapshot group from its rows: the members in
/// position order, and the rows of (slot, equipment) of both kinds.
pub fn build_snapshot_group_info(
    group: HeroGroupSnapshotGroup,
    group_id: i32,
    hero_list: Vec<i64>,
    equip_rows: &Vec<(i32, i64)>,
    activity104_rows: &Vec<(i32, i64)>,
) -> (info: HeroGroupInfo)
    ensures
        info.group_id == group_id,
        info.hero_list@ == hero_list@,
        info.name@ == group.name@,
        info.cloth_id == group.cloth_id,
        info.assist_boss_id == group.assist_boss_id,
        equips_of(info.equips@, equip_rows@),
        equips_of(info.activity104_equips@, activity104_rows@),
{
    HeroGroupInfo {
        group_id,
        hero_list,
        name: group.name,
        cloth_id: group.cloth_id,
        equips: group_equips(equip_rows),
        activity104_equips: group_equips(activity104_rows),
        assist_boss_id: group.assist_boss_id,
    }
}

/// The sort order after new entries were merged in: the existing entries,
/// then each new entry that was not there yet, once.
pub open spec fn merged_sort_ids(existing: Seq<i32>, added: Seq<i32>) -> Seq<i32>
    decreases added.len(),
{
    if added.len() == 0 {
        existing
    } else {
        let before = merged_sort_ids(existing, added.drop_last());
        if before.contains(added.last()) {
            before
        } else {
            before.push(added.last())
        }
    }
}

/// The merged order starts with the existing entries, holds every new entry,
/// and holds nothing else; entries that were distinct stay distinct.
pub proof fn lemma_merged_sort_ids(existing: Seq<i32>, added: Seq<i32>)
    ensures
        merged_sort_ids(existing, added).len() >= existing.len(),
        merged_sort_ids(existing, added).subrange(0, existing.len() as int) == existing,
        forall|k: int| 0 <= k < added.len() ==> merged_sort_ids(existing, added).contains(added[k]),
        forall|id: i32|
            merged_sort_ids(existing, added).contains(id) ==> existing.contains(id)
                || added.contains(id),
        existing.no_duplicates() ==> merged_sort_ids(existing, added).no_duplicates(),
    decreases added.len(),
{
    let merged = merged_sort_ids(existing, added);
    if added.len() == 0 {
        assert(merged.subrange(0, existing.len() as int) =~= existing);
    } else {
        let shorter = added.drop_last();
        let before = merged_sort_ids(existing, shorter);
        lemma_merged_sort_ids(existing, shorter);
        assert(merged.subrange(0, existing.len() as int) =~= before.subrange(
            0,
            existing.len() as int,
        ));
        assert forall|k: int| 0 <= k < added.len() implies merged.contains(added[k]) by {
            if k < shorter.len() {
                assert(shorter[k] == added[k]);
                let at = choose|at: int| 0 <= at < before.len() && before[at] == added[k];
                assert(merged[at] == added[k]);
            } else if before.contains(added.last()) {
            } else {
                assert(merged[before.len() as int] == added[k]);
            }
        }
        assert forall|id: i32| merged.contains(id) implies existing.contains(id) || added.contains(
            id,
        ) by {
            let at = choose|at: int| 0 <= at < merged.len() && merged[at] == id;
            if at < before.len() {
                assert(before[at] == id);
                assert(before.contains(id));
                if !existing.contains(id) {
                    let k = choose|k: int| 0 <= k < shorter.len() && shorter[k] == id;
                    assert(added[k] == id);
                }
            } else {
                assert(added[added.len() - 1] == id);
            }
        }
    }
}

fn contains_id(ids: &Vec<i32>, id: i32) -> (found: bool)
    ensures
        found == ids@.contains(id),
{
    let n = ids.len();
    let mut k: usize = 0;
    while k < n
        invariant
            n == ids@.len(),
            k <= n,
            forall|j: int| 0 <= j < k ==> ids@[j] != id,
        decreases n - k,
    {
        if ids[k] == id {
            return true;
        }
        k = k + 1;
    }
    false
}

/// Merges new entries into a stored sort order: an entry that is already
/// there keeps its place, the others are appended in their order.
pub fn merge_sort_ids(existing: Vec<i32>, added: &Vec<i32>) -> (merged: Vec<i32>)
    ensures
        merged@ == merged_sort_ids(existing@, added@),
{
    let mut merged = existing;
    let n = added.len();
    let mut i: usize = 0;
    proof {
        assert(added@.subrange(0, 0) =~= Seq::<i32>::empty());
    }
    while i < n
        invariant
            n == added@.len(),
            i <= n,
            merged@ == merged_sort_ids(existing@, added@.subrange(0, i as int)),
        decreases n - i,
    {
        proof {
            assert(added@.subrange(0, i + 1).drop_last() =~= added@.subrange(0, i as int));
            assert(added@.subrange(0, i + 1).last() == added@[i as int]);
        }
        let id = added[i];
        if !contains_id(&merged, id) {
            merged.push(id);
        }
        i = i + 1;
    }
    proof {
        assert(added@.subrange(0, n as int) =~= added@);
    }
    merged
}

} // verus!
