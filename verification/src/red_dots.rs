//! Notification flags ("red dots") of a player, and their grouping for the client.

use vstd::prelude::*;
use vstd::string::*;

verus! {

/// One stored notification flag.
#[derive(Debug, Clone)]
pub struct RedDotRecord {
    pub player_id: i64,
    pub define_id: i32,
    pub info_id: i32,
    pub value: i32,
    pub time: i64,
    pub ext: String,
    pub replace_all: bool,
}

/// The flags of one feature, as they are pushed to the client.
#[derive(Debug, Clone)]
pub struct RedDotGroup {
    pub define_id: i32,
    pub dots: Vec<RedDotRecord>,
    pub replace_all: bool,
}

/// The features that occur among the records, each once, in the order in
/// which they first occur.
pub open spec fn defines_of(records: Seq<RedDotRecord>) -> Seq<i32>
    decreases records.len(),
{
    if records.len() == 0 {
        Seq::<i32>::empty()
    } else {
        let before = defines_of(records.drop_last());
        if before.contains(records.last().define_id) {
            before
        } else {
            before.push(records.last().define_id)
        }
    }
}

/// The records of one feature, in their order.
pub open spec fn dots_of(records: Seq<RedDotRecord>, define_id: i32) -> Seq<RedDotRecord>
    decreases records.len(),
{
    if records.len() == 0 {
        Seq::<RedDotRecord>::empty()
    } else {
        let before = dots_of(records.drop_last(), define_id);
        if records.last().define_id == define_id {
            before.push(records.last())
        } else {
            before
        }
    }
}

/// Whether the groups are the records grouped by feature: one group for each
/// feature in order of first occurrence, holding the feature's records in
/// their order, with the `replace_all` of the first of them.
pub open spec fn groups_of(groups: Seq<RedDotGroup>, records: Seq<RedDotRecord>) -> bool {
    &&& groups.len() == defines_of(records).len()
    &&& forall|k: int|
        0 <= k < groups.len() ==> {
            &&& (#[trigger] groups[k]).define_id == defines_of(records)[k]
            &&& groups[k].dots@ == dots_of(records, defines_of(records)[k])
            &&& groups[k].dots@.len() > 0
            &&& groups[k].replace_all == groups[k].dots@[0].replace_all
        }
}

/// No feature occurs twice among the features of the records, and a feature
/// occurs among them exactly when it has a record.
pub proof fn lemma_defines_of(records: Seq<RedDotRecord>)
    ensures
        defines_of(records).no_duplicates(),
        forall|id: i32| #[trigger]
            defines_of(records).contains(id) <==> dots_of(records, id).len() > 0,
        forall|id: i32, k: int|
            0 <= k < dots_of(records, id).len() ==> (#[trigger] dots_of(records, id)[k]).define_id
                == id,
    decreases records.len(),
{
    if records.len() > 0 {
        let before = records.drop_last();
        let last = records.last().define_id;
        lemma_defines_of(before);
        assert forall|id: i32, k: int| 0 <= k < dots_of(records, id).len() implies (
        #[trigger] dots_of(records, id)[k]).define_id == id by {
            if k < dots_of(before, id).len() {
                assert(dots_of(records, id)[k] == dots_of(before, id)[k]);
            }
        }
        assert forall|id: i32| #[trigger]
            defines_of(records).contains(id) <==> dots_of(records, id).len() > 0 by {
            if defines_of(before).contains(last) {
            } else {
                if id == last {
                    assert(defines_of(records).last() == last);
                } else {
                    if defines_of(records).contains(id) {
                        let k = choose|k: int|
                            0 <= k < defines_of(records).len() && defines_of(records)[k] == id;
                        assert(defines_of(before)[k] == id);
                    }
                    if defines_of(before).contains(id) {
                        let k = choose|k: int|
                            0 <= k < defines_of(before).len() && defines_of(before)[k] == id;
                        assert(defines_of(records)[k] == id);
                    }
                }
            }
        }
    }
}

/// Every record is in the group of its feature, and in no other: the groups'
/// sizes add up to the number of records.
pub proof fn lemma_groups_cover(records: Seq<RedDotRecord>, at: int)
    requires
        0 <= at < records.len(),
    ensures
        defines_of(records).contains(records[at].define_id),
        dots_of(records, records[at].define_id).contains(records[at]),
    decreases records.len(),
{
    let before = records.drop_last();
    let id = records[at].define_id;
    if at == records.len() - 1 {
        let dots = dots_of(records, id);
        assert(dots.last() == records[at]);
        lemma_defines_of(records);
    } else {
        lemma_groups_cover(before, at);
        assert(before[at] == records[at]);
        let k = choose|k: int|
            0 <= k < dots_of(before, id).len() && dots_of(before, id)[k] == records[at];
        assert(dots_of(records, id)[k] == records[at]);
        lemma_defines_of(records);
    }
}

fn find_group(groups: &Vec<RedDotGroup>, define_id: i32) -> (at: Option<usize>)
    ensures
        match at {
            Some(k) => k < groups@.len() && groups@[k as int].define_id == define_id,
            None => forall|k: int| 0 <= k < groups@.len() ==> groups@[k].define_id != define_id,
        },
{
    let n = groups.len();
    let mut k: usize = 0;
    while k < n
        invariant
            n == groups@.len(),
            k <= n,
            forall|j: int| 0 <= j < k ==> groups@[j].define_id != define_id,
        decreases n - k,
    {
        if groups[k].define_id == define_id {
            return Some(k);
        }
        k = k + 1;
    }
    None
}

/// Groups the records by feature.
///
/// The groups come in the order in which their features first occur. Each
/// holds the feature's records in their order and takes `replace_all` from
/// the first of them.
pub fn group_red_dots(records: Vec<RedDotRecord>) -> (groups: Vec<RedDotGroup>)
    ensures
        groups_of(groups@, records@),
{
    let mut groups: Vec<RedDotGroup> = Vec::new();
    let ghost all = records@;
    proof {
        assert(all.subrange(0, 0) =~= Seq::<RedDotRecord>::empty());
    }
    for record in it: records
        invariant
            it.seq() == all,
            groups_of(groups@, all.subrange(0, it.index() as int)),
    {
        let ghost before = all.subrange(0, it.index() as int);
        let ghost longer = all.subrange(0, it.index() + 1);
        let ghost old_groups = groups@;
        let ghost id = record.define_id;
        proof {
            assert(longer.drop_last() =~= before);
            assert(longer.last() == record);
            lemma_defines_of(before);
            lemma_defines_of(longer);
        }
        match find_group(&groups, record.define_id) {
            Some(k) => {
                proof {
                    assert(defines_of(before)[k as int] == id);
                    assert(defines_of(before).contains(id));
                    assert(defines_of(longer) == defines_of(before));
                }
                groups[k].dots.push(record);
                proof {
                    assert forall|j: int| 0 <= j < groups@.len() implies {
                        &&& (#[trigger] groups@[j]).define_id == defines_of(longer)[j]
                        &&& groups@[j].dots@ == dots_of(longer, defines_of(longer)[j])
                        &&& groups@[j].dots@.len() > 0
                        &&& groups@[j].replace_all == groups@[j].dots@[0].replace_all
                    } by {
                        assert(old_groups[j].define_id == defines_of(before)[j]);
                        if j != k {
                            assert(groups@[j] == old_groups[j]);
                            assert(defines_of(before)[j] != id);
                        }
                    }
                }
            },
            None => {
                proof {
                    assert(!defines_of(before).contains(id)) by {
                        if defines_of(before).contains(id) {
                            let j = choose|j: int|
                                0 <= j < defines_of(before).len() && defines_of(before)[j] == id;
                            assert(old_groups[j].define_id == id);
                        }
                    }
                    assert(dots_of(before, id).len() == 0);
                }
                let replace_all = record.replace_all;
                let define_id = record.define_id;
                let mut dots: Vec<RedDotRecord> = Vec::new();
                dots.push(record);
                groups.push(RedDotGroup { define_id, dots, replace_all });
                proof {
                    assert(dots_of(longer, id) =~= seq![record]);
                    assert forall|j: int| 0 <= j < groups@.len() implies {
                        &&& (#[trigger] groups@[j]).define_id == defines_of(longer)[j]
                        &&& groups@[j].dots@ == dots_of(longer, defines_of(longer)[j])
                        &&& groups@[j].dots@.len() > 0
                        &&& groups@[j].replace_all == groups@[j].dots@[0].replace_all
                    } by {
                        if j < old_groups.len() {
                            assert(groups@[j] == old_groups[j]);
                            assert(old_groups[j].define_id == defines_of(before)[j]);
                            assert(defines_of(before).contains(defines_of(before)[j]));
                        }
                    }
                }
            },
        }
    }
    proof {
        assert(all.subrange(0, all.len() as int) =~= all);
    }
    groups
}

/// The most identifiers one filtered query takes: storage accepts 32766
/// parameters in a statement, and one of them is the player.
pub const MAX_DEFINE_IDS: usize = 32765;

/// `count` question marks, separated by commas.
pub open spec fn parameter_marks(count: nat) -> Seq<char>
    decreases count,
{
    if count == 0 {
        Seq::<char>::empty()
    } else if count == 1 {
        seq!['?']
    } else {
        parameter_marks((count - 1) as nat) + seq![',', '?']
    }
}

/// The text of the query for the red dots of `count` features.
pub open spec fn filtered_query_text(count: nat) -> Seq<char> {
    "SELECT * FROM red_dots WHERE player_id = ? AND define_id IN ("@ + parameter_marks(count)
        + ") ORDER BY define_id, info_id"@
}

/// How the red dots of some features are asked for.
#[derive(Debug, Clone, PartialEq, Eq)]
pub enum RedDotQuery {
    /// No feature was named: there is nothing to ask, and no red dot is found.
    Nothing,
    /// The statement to run, with the player and then each feature bound to
    /// its parameters.
    Select(String),
    /// More features were named than a statement has parameters for.
    TooMany,
}

/// Builds the query for the red dots of `count` features. Every feature is a
/// parameter of the statement; no value is written into its text.
pub fn red_dots_by_defines_query(count: usize) -> (query: RedDotQuery)
    ensures
        count == 0 ==> query == RedDotQuery::Nothing,
        count > MAX_DEFINE_IDS ==> query == RedDotQuery::TooMany,
        0 < count <= MAX_DEFINE_IDS ==> (query matches RedDotQuery::Select(text) && text@
            == filtered_query_text(count as nat)),
{
    if count == 0 {
        return RedDotQuery::Nothing;
    }
    if count > MAX_DEFINE_IDS {
        return RedDotQuery::TooMany;
    }
    let mut text = String::from_str("SELECT * FROM red_dots WHERE player_id = ? AND define_id IN (");
    let ghost head = text@;
    proof {
        reveal_strlit("?");
        reveal_strlit(",?");
        assert("?"@ =~= seq!['?']);
        assert(",?"@ =~= seq![',', '?']);
    }
    text.append("?");
    let mut done: usize = 1;
    while done < count
        invariant
            1 <= done <= count,
            text@ == head + parameter_marks(done as nat),
            ",?"@ == seq![',', '?'],
        decreases count - done,
    {
        text.append(",?");
        done = done + 1;
        assert(text@ =~= head + parameter_marks(done as nat));
    }
    text.append(") ORDER BY define_id, info_id");
    RedDotQuery::Select(text)
}

} // verus!
