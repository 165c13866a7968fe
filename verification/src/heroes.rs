//! Rules for the heroes a player owns.
//!
//! Storage holds the heroes; what a new hero starts with is read from the
//! static game data and decided here.

use crate::exceldb::character::Character;
use crate::exceldb::character_voice::CharacterVoice;
use crate::gacha::id_list;
use crate::gacha::parse_id_list;
use crate::text::chars_of;
use crate::text::fields_view;
use crate::text::i32_value;
use crate::text::parse_i32;
use crate::text::split;
use crate::text::split_chars;
use vstd::prelude::*;
use vstd::string::*;

verus! {

/// Touches a player has on a day when storage holds no count.
pub const DAILY_TOUCHES: i32 = 5;

/// Unique identifier of the first hero ever created.
pub const FIRST_HERO_UID: i64 = 20000001;

/// Faith a new hero starts with.
pub const STARTING_FAITH: i32 = 100;

/// Number of talent templates a new hero gets, numbered from 1.
pub const TALENT_TEMPLATES: i32 = 4;

/// The hero that starts with a choice of weapons.
pub const HERO_WITH_WEAPONS: i32 = 3123;

/// The hero that starts with a choice of styles.
pub const HERO_WITH_STYLES: i32 = 3124;

/// The touches left after one touch, given the stored count: one fewer than
/// were left, and none when no touch was left. Without a stored count the
/// player had the daily number.
pub open spec fn touches_after_use(stored: Option<i32>) -> Option<i32> {
    let left = match stored {
        Some(count) => count,
        None => 5,
    };
    if left <= 0 {
        None
    } else {
        Some((left - 1) as i32)
    }
}

/// Uses one touch. Returns the count to store, or none when no touch is left.
pub fn use_touch(stored: Option<i32>) -> (left: Option<i32>)
    ensures
        left == touches_after_use(stored),
{
    let current = match stored {
        Some(count) => count,
        None => DAILY_TOUCHES,
    };
    if current <= 0 {
        None
    } else {
        Some(current - 1)
    }
}

/// The column of the player's record that counts heroes of a rarity.
pub open spec fn rarity_column_name(rarity: int) -> Option<Seq<char>> {
    if rarity == 1 {
        Some("hero_rare_nn_count"@)
    } else if rarity == 2 {
        Some("hero_rare_n_count"@)
    } else if rarity == 3 {
        Some("hero_rare_r_count"@)
    } else if rarity == 4 {
        Some("hero_rare_sr_count"@)
    } else if rarity == 5 {
        Some("hero_rare_ssr_count"@)
    } else {
        None
    }
}

/// The column of the player's record that counts heroes of a rarity, or none
/// for a rarity that is not counted.
pub fn rarity_column(rarity: i32) -> (column: Option<&'static str>)
    ensures
        column matches Some(name) ==> rarity_column_name(rarity as int) == Some(name@),
        column is None ==> rarity_column_name(rarity as int) is None,
{
    if rarity == 1 {
        Some("hero_rare_nn_count")
    } else if rarity == 2 {
        Some("hero_rare_n_count")
    } else if rarity == 3 {
        Some("hero_rare_r_count")
    } else if rarity == 4 {
        Some("hero_rare_sr_count")
    } else if rarity == 5 {
        Some("hero_rare_ssr_count")
    } else {
        None
    }
}

/// The unique identifier of the next hero: one more than the last one, or
/// the first identifier when there is no hero yet. There is none after the
/// largest identifier.
pub fn next_hero_uid(last: Option<i64>) -> (uid: Option<i64>)
    ensures
        uid == match last {
            Some(l) => if l < i64::MAX {
                Some((l + 1) as i64)
            } else {
                None
            },
            None => Some(20000001i64),
        },
{
    match last {
        Some(l) => if l < i64::MAX {
            Some(l + 1)
        } else {
            None
        },
        None => Some(FIRST_HERO_UID),
    }
}

/// What a hero's record says beyond its numbers when the hero is created.
pub open spec fn extra_text(hero_id: i32) -> Seq<char> {
    if hero_id == 3123 {
        "1003#2003"@
    } else if hero_id == 3124 {
        "2#21,22|3#32,33,31"@
    } else {
        Seq::<char>::empty()
    }
}

/// What a hero's record says beyond its numbers when the hero is created.
pub fn extra_str(hero_id: i32) -> (text: &'static str)
    ensures
        text@ == extra_text(hero_id),
{
    if hero_id == HERO_WITH_WEAPONS {
        "1003#2003"
    } else if hero_id == HERO_WITH_STYLES {
        "2#21,22|3#32,33,31"
    } else {
        proof {
            reveal_strlit("");
            assert(""@ =~= Seq::<char>::empty());
        }
        ""
    }
}

/// Whether a hero of this identifier can be created: it is not one of the two
/// characters that are no heroes.
pub open spec fn creatable(hero_id: i32) -> bool {
    hero_id != 3029 && hero_id != 9998
}

/// The position of the first character with the identifier, or the number of
/// characters when there is none.
pub open spec fn first_character(characters: Seq<Character>, hero_id: i32) -> int
    decreases characters.len(),
{
    if characters.len() == 0 {
        0
    } else if characters[0].id == hero_id {
        0
    } else {
        1 + first_character(characters.drop_first(), hero_id)
    }
}

/// The found position is in range, holds the identifier where it is a
/// position, and no earlier position does.
pub proof fn lemma_first_character(characters: Seq<Character>, hero_id: i32)
    ensures
        0 <= first_character(characters, hero_id) <= characters.len(),
        first_character(characters, hero_id) < characters.len() ==> characters[first_character(
            characters,
            hero_id,
        )].id == hero_id,
        forall|k: int|
            0 <= k < first_character(characters, hero_id) ==> (#[trigger] characters[k]).id
                != hero_id,
    decreases characters.len(),
{
    if characters.len() > 0 && characters[0].id != hero_id {
        let rest = characters.drop_first();
        lemma_first_character(rest, hero_id);
        assert forall|k: int| 0 <= k < first_character(characters, hero_id) implies (
        #[trigger] characters[k]).id != hero_id by {
            if k > 0 {
                assert(rest[k - 1] == characters[k]);
            }
        }
    }
}

proof fn lemma_first_character_is(characters: Seq<Character>, hero_id: i32, at: int)
    requires
        0 <= at <= characters.len(),
        forall|k: int| 0 <= k < at ==> (#[trigger] characters[k]).id != hero_id,
        at < characters.len() ==> characters[at].id == hero_id,
    ensures
        first_character(characters, hero_id) == at,
    decreases characters.len(),
{
    if characters.len() > 0 && characters[0].id != hero_id {
        let rest = characters.drop_first();
        assert forall|k: int| 0 <= k < at - 1 implies (#[trigger] rest[k]).id != hero_id by {
            assert(rest[k] == characters[k + 1]);
        }
        lemma_first_character_is(rest, hero_id, at - 1);
    }
}

/// Finds the character a new hero is made of: the first with the identifier,
/// unless the identifier is of a character that is no hero.
pub fn find_hero_character(characters: &[Character], hero_id: i32) -> (found: Option<&Character>)
    ensures
        match found {
            Some(c) => creatable(hero_id) && first_character(characters@, hero_id)
                < characters@.len() && *c == characters@[first_character(characters@, hero_id)],
            None => !creatable(hero_id) || first_character(characters@, hero_id)
                == characters@.len(),
        },
{
    if hero_id == 3029 || hero_id == 9998 {
        return None;
    }
    let n = characters.len();
    let mut i: usize = 0;
    while i < n
        invariant
            n == characters@.len(),
            i <= n,
            creatable(hero_id),
            forall|k: int| 0 <= k < i ==> (#[trigger] characters@[k]).id != hero_id,
        decreases n - i,
    {
        if characters[i].id == hero_id {
            proof {
                lemma_first_character_is(characters@, hero_id, i as int);
            }
            return Some(&characters[i]);
        }
        i = i + 1;
    }
    proof {
        lemma_first_character_is(characters@, hero_id, n as int);
    }
    None
}

/// The numbers of a hero at one level, from the static game data.
#[derive(Debug, Clone, Copy, PartialEq, Eq, Structural)]
pub struct CharacterLevel {
    pub hero_id: i32,
    pub level: i32,
    pub hp: i32,
    pub atk: i32,
    pub def: i32,
    pub mdef: i32,
    pub technic: i32,
    pub cri: i32,
    pub recri: i32,
    pub cri_dmg: i32,
    pub cri_def: i32,
    pub add_dmg: i32,
    pub drop_dmg: i32,
}

/// One rank a hero can have, from the static game data.
#[derive(Debug, Clone, Copy, PartialEq, Eq, Structural)]
pub struct CharacterRank {
    pub hero_id: i32,
    pub rank: i32,
}

/// One skin, from the static game data.
#[derive(Debug, Clone, Copy, PartialEq, Eq, Structural)]
pub struct Skin {
    pub id: i32,
    pub character_id: i32,
}

/// One talent a hero can have, from the static game data.
#[derive(Debug, Clone, Copy, PartialEq, Eq, Structural)]
pub struct CharacterTalent {
    pub hero_id: i32,
    pub talent_id: i32,
}

/// One level of a passive skill, from the static game data.
#[derive(Debug, Clone, Copy, PartialEq, Eq, Structural)]
pub struct SkillPassiveLevel {
    pub hero_id: i32,
    pub skill_group: i32,
    pub skill_level: i32,
}

/// The destiny of a hero, from the static game data. `facets_id` lists the
/// hero's destiny stones, separated by `#`.
#[derive(Debug, Clone)]
pub struct CharacterDestiny {
    pub hero_id: i32,
    pub facets_id: String,
}

/// The level and the numbers a hero starts with.
#[derive(Debug, Clone, Copy, PartialEq, Eq, Structural)]
pub struct BaseStats {
    pub level: i32,
    pub hp: i32,
    pub atk: i32,
    pub def: i32,
    pub mdef: i32,
    pub technic: i32,
    pub cri: i32,
    pub recri: i32,
    pub cri_dmg: i32,
    pub cri_def: i32,
    pub add_dmg: i32,
    pub drop_dmg: i32,
}

/// The numbers of a row of the level table.
pub open spec fn stats_of(row: CharacterLevel) -> BaseStats {
    BaseStats {
        level: row.level,
        hp: row.hp,
        atk: row.atk,
        def: row.def,
        mdef: row.mdef,
        technic: row.technic,
        cri: row.cri,
        recri: row.recri,
        cri_dmg: row.cri_dmg,
        cri_def: row.cri_def,
        add_dmg: row.add_dmg,
        drop_dmg: row.drop_dmg,
    }
}

/// The numbers of a hero that the level table does not know.
pub open spec fn fallback_stats() -> BaseStats {
    BaseStats {
        level: 1,
        hp: 1000,
        atk: 100,
        def: 100,
        mdef: 100,
        technic: 100,
        cri: 0,
        recri: 0,
        cri_dmg: 1300,
        cri_def: 0,
        add_dmg: 0,
        drop_dmg: 0,
    }
}

/// Whether row `at` is the hero's row of lowest level, and the first such row.
pub open spec fn is_first_lowest_level(levels: Seq<CharacterLevel>, hero_id: i32, at: int) -> bool {
    &&& 0 <= at < levels.len()
    &&& levels[at].hero_id == hero_id
    &&& forall|k: int|
        0 <= k < levels.len() && (#[trigger] levels[k]).hero_id == hero_id ==> levels[at].level
            <= levels[k].level
    &&& forall|k: int|
        0 <= k < at && (#[trigger] levels[k]).hero_id == hero_id ==> levels[at].level
            < levels[k].level
}

/// Finds the hero's row of lowest level; the first where several are lowest.
pub fn lowest_level_row(levels: &[CharacterLevel], hero_id: i32) -> (found: Option<usize>)
    ensures
        match found {
            Some(at) => is_first_lowest_level(levels@, hero_id, at as int),
            None => forall|k: int|
                0 <= k < levels@.len() ==> (#[trigger] levels@[k]).hero_id != hero_id,
        },
{
    let n = levels.len();
    let mut best: Option<usize> = None;
    let mut i: usize = 0;
    while i < n
        invariant
            n == levels@.len(),
            i <= n,
            match best {
                Some(at) => is_first_lowest_level(levels@.subrange(0, i as int), hero_id, at as int),
                None => forall|k: int| 0 <= k < i ==> (#[trigger] levels@[k]).hero_id != hero_id,
            },
        decreases n - i,
    {
        let ghost before = levels@.subrange(0, i as int);
        let ghost longer = levels@.subrange(0, i + 1);
        let row = levels[i];
        let mut next = best;
        if row.hero_id == hero_id {
            match best {
                Some(at) => {
                    if row.level < levels[at].level {
                        next = Some(i);
                    }
                },
                None => {
                    next = Some(i);
                },
            }
        }
        proof {
            assert forall|k: int| 0 <= k < i implies longer[k] == before[k] by {}
            assert(longer[i as int] == row);
            match next {
                Some(at) => {
                    assert(longer[at as int] == levels@[at as int]);
                    assert forall|k: int|
                        0 <= k < longer.len() && (#[trigger] longer[k]).hero_id
                            == hero_id implies longer[at as int].level <= longer[k].level by {
                        if k < i {
                            assert(before[k] == longer[k]);
                        }
                    }
                    assert forall|k: int|
                        0 <= k < at && (#[trigger] longer[k]).hero_id
                            == hero_id implies longer[at as int].level < longer[k].level by {
                        assert(before[k] == longer[k]);
                    }
                },
                None => {},
            }
        }
        best = next;
        i = i + 1;
    }
    proof {
        assert(levels@.subrange(0, n as int) =~= levels@);
    }
    best
}

/// Whether `stats` are the level and the numbers a new hero starts with.
pub open spec fn is_starting_stats(levels: Seq<CharacterLevel>, hero_id: i32, stats: BaseStats) -> bool {
    if forall|k: int| 0 <= k < levels.len() ==> (#[trigger] levels[k]).hero_id != hero_id {
        stats == fallback_stats()
    } else {
        exists|at: int| is_first_lowest_level(levels, hero_id, at) && stats == stats_of(levels[at])
    }
}

/// The level and the numbers a new hero starts with: those of the hero's
/// lowest level, or the fallback where the level table does not know the hero.
pub fn level_one_stats(levels: &[CharacterLevel], hero_id: i32) -> (stats: BaseStats)
    ensures
        is_starting_stats(levels@, hero_id, stats),
{
    match lowest_level_row(levels, hero_id) {
        Some(at) => {
            let row = levels[at];
            BaseStats {
                level: row.level,
                hp: row.hp,
                atk: row.atk,
                def: row.def,
                mdef: row.mdef,
                technic: row.technic,
                cri: row.cri,
                recri: row.recri,
                cri_dmg: row.cri_dmg,
                cri_def: row.cri_def,
                add_dmg: row.add_dmg,
                drop_dmg: row.drop_dmg,
            }
        },
        None => BaseStats {
            level: 1,
            hp: 1000,
            atk: 100,
            def: 100,
            mdef: 100,
            technic: 100,
            cri: 0,
            recri: 0,
            cri_dmg: 1300,
            cri_def: 0,
            add_dmg: 0,
            drop_dmg: 0,
        },
    }
}

/// Whether `value` is the least of the values that are selected.
pub open spec fn is_least(selected: Seq<bool>, values: Seq<i32>, value: i32) -> bool {
    &&& exists|k: int| 0 <= k < values.len() && selected[k] && #[trigger] values[k] == value
    &&& forall|k: int| 0 <= k < values.len() && selected[k] ==> value <= #[trigger] values[k]
}

/// Whether `value` is the greatest of the values that are selected.
pub open spec fn is_greatest(selected: Seq<bool>, values: Seq<i32>, value: i32) -> bool {
    &&& exists|k: int| 0 <= k < values.len() && selected[k] && #[trigger] values[k] == value
    &&& forall|k: int| 0 <= k < values.len() && selected[k] ==> value >= #[trigger] values[k]
}

/// Whether no value is selected.
pub open spec fn none_selected(selected: Seq<bool>) -> bool {
    forall|k: int| 0 <= k < selected.len() ==> !#[trigger] selected[k]
}

/// Which ranks are of the hero, and the ranks.
pub open spec fn ranks_of(ranks: Seq<CharacterRank>, hero_id: i32) -> (Seq<bool>, Seq<i32>) {
    (
        Seq::new(ranks.len(), |k: int| ranks[k].hero_id == hero_id),
        Seq::new(ranks.len(), |k: int| ranks[k].rank),
    )
}

/// The rank a new hero starts with: the hero's lowest, or 1 where the rank
/// table does not know the hero.
pub fn lowest_rank(ranks: &[CharacterRank], hero_id: i32) -> (rank: i32)
    ensures
        none_selected(ranks_of(ranks@, hero_id).0) ==> rank == 1,
        !none_selected(ranks_of(ranks@, hero_id).0) ==> is_least(
            ranks_of(ranks@, hero_id).0,
            ranks_of(ranks@, hero_id).1,
            rank,
        ),
{
    let n = ranks.len();
    let ghost selected = ranks_of(ranks@, hero_id).0;
    let ghost values = ranks_of(ranks@, hero_id).1;
    let mut best: Option<i32> = None;
    let mut i: usize = 0;
    while i < n
        invariant
            n == ranks@.len(),
            i <= n,
            selected == ranks_of(ranks@, hero_id).0,
            values == ranks_of(ranks@, hero_id).1,
            match best {
                Some(v) => is_least(selected.subrange(0, i as int), values.subrange(0, i as int), v),
                None => none_selected(selected.subrange(0, i as int)),
            },
        decreases n - i,
    {
        let row = ranks[i];
        let ghost old_best = best;
        if row.hero_id == hero_id {
            best = match best {
                Some(v) => if row.rank < v {
                    Some(row.rank)
                } else {
                    Some(v)
                },
                None => Some(row.rank),
            };
        }
        proof {
            lemma_extend_least(selected, values, i as int, old_best, best);
        }
        i = i + 1;
    }
    proof {
        assert(selected.subrange(0, n as int) =~= selected);
        assert(values.subrange(0, n as int) =~= values);
    }
    match best {
        Some(v) => v,
        None => 1,
    }
}

/// One more value keeps the least: the least of a longer prefix is the lesser
/// of the least so far and the new value, where the new value is selected.
proof fn lemma_extend_least(
    selected: Seq<bool>,
    values: Seq<i32>,
    i: int,
    before: Option<i32>,
    after: Option<i32>,
)
    requires
        selected.len() == values.len(),
        0 <= i < values.len(),
        match before {
            Some(v) => is_least(selected.subrange(0, i), values.subrange(0, i), v),
            None => none_selected(selected.subrange(0, i)),
        },
        after == if selected[i] {
            match before {
                Some(v) => if values[i] < v {
                    Some(values[i])
                } else {
                    Some(v)
                },
                None => Some(values[i]),
            }
        } else {
            before
        },
    ensures
        match after {
            Some(v) => is_least(selected.subrange(0, i + 1), values.subrange(0, i + 1), v),
            None => none_selected(selected.subrange(0, i + 1)),
        },
{
    let s0 = selected.subrange(0, i);
    let v0 = values.subrange(0, i);
    let s1 = selected.subrange(0, i + 1);
    let v1 = values.subrange(0, i + 1);
    assert forall|k: int| 0 <= k < i implies s1[k] == s0[k] && v1[k] == v0[k] by {}
    assert(s1[i] == selected[i] && v1[i] == values[i]);
    match after {
        Some(v) => {
            if selected[i] && (before is None || values[i] < before->Some_0) {
                assert(s1[i] && v1[i] == v);
            } else {
                let k = choose|k: int| 0 <= k < v0.len() && s0[k] && #[trigger] v0[k] == v;
                assert(s1[k] && v1[k] == v);
            }
            assert forall|k: int| 0 <= k < v1.len() && s1[k] implies v <= #[trigger] v1[k] by {
                if k < i {
                    assert(s0[k] && v0[k] == v1[k]);
                }
            }
        },
        None => {
            assert forall|k: int| 0 <= k < s1.len() implies !#[trigger] s1[k] by {
                if k < i {
                    assert(!s0[k]);
                }
            }
        },
    }
}

/// One more value keeps the greatest: the greatest of a longer prefix is the
/// greater of the greatest so far and the new value, where the new value is
/// selected.
proof fn lemma_extend_greatest(
    selected: Seq<bool>,
    values: Seq<i32>,
    i: int,
    before: Option<i32>,
    after: Option<i32>,
)
    requires
        selected.len() == values.len(),
        0 <= i < values.len(),
        match before {
            Some(v) => is_greatest(selected.subrange(0, i), values.subrange(0, i), v),
            None => none_selected(selected.subrange(0, i)),
        },
        after == if selected[i] {
            match before {
                Some(v) => if values[i] > v {
                    Some(values[i])
                } else {
                    Some(v)
                },
                None => Some(values[i]),
            }
        } else {
            before
        },
    ensures
        match after {
            Some(v) => is_greatest(selected.subrange(0, i + 1), values.subrange(0, i + 1), v),
            None => none_selected(selected.subrange(0, i + 1)),
        },
{
    let s0 = selected.subrange(0, i);
    let v0 = values.subrange(0, i);
    let s1 = selected.subrange(0, i + 1);
    let v1 = values.subrange(0, i + 1);
    assert forall|k: int| 0 <= k < i implies s1[k] == s0[k] && v1[k] == v0[k] by {}
    assert(s1[i] == selected[i] && v1[i] == values[i]);
    match after {
        Some(v) => {
            if selected[i] && (before is None || values[i] > before->Some_0) {
                assert(s1[i] && v1[i] == v);
            } else {
                let k = choose|k: int| 0 <= k < v0.len() && s0[k] && #[trigger] v0[k] == v;
                assert(s1[k] && v1[k] == v);
            }
            assert forall|k: int| 0 <= k < v1.len() && s1[k] implies v >= #[trigger] v1[k] by {
                if k < i {
                    assert(s0[k] && v0[k] == v1[k]);
                }
            }
        },
        None => {
            assert forall|k: int| 0 <= k < s1.len() implies !#[trigger] s1[k] by {
                if k < i {
                    assert(!s0[k]);
                }
            }
        },
    }
}

/// Which skins are of the hero, and the skins' identifiers. A skin of
/// character 0 belongs to nobody.
pub open spec fn skins_of(skins: Seq<Skin>, hero_id: i32) -> (Seq<bool>, Seq<i32>) {
    (
        Seq::new(skins.len(), |k: int| skins[k].character_id != 0 && skins[k].character_id == hero_id),
        Seq::new(skins.len(), |k: int| skins[k].id),
    )
}

/// The skin a new hero wears: the hero's skin with the greatest identifier,
/// or `hero_skin` where the skin table has none for the hero.
pub fn default_skin(skins: &[Skin], hero_id: i32, hero_skin: i32) -> (skin: i32)
    ensures
        none_selected(skins_of(skins@, hero_id).0) ==> skin == hero_skin,
        !none_selected(skins_of(skins@, hero_id).0) ==> is_greatest(
            skins_of(skins@, hero_id).0,
            skins_of(skins@, hero_id).1,
            skin,
        ),
{
    let n = skins.len();
    let ghost selected = skins_of(skins@, hero_id).0;
    let ghost values = skins_of(skins@, hero_id).1;
    let mut best: Option<i32> = None;
    let mut i: usize = 0;
    while i < n
        invariant
            n == skins@.len(),
            i <= n,
            selected == skins_of(skins@, hero_id).0,
            values == skins_of(skins@, hero_id).1,
            match best {
                Some(v) => is_greatest(
                    selected.subrange(0, i as int),
                    values.subrange(0, i as int),
                    v,
                ),
                None => none_selected(selected.subrange(0, i as int)),
            },
        decreases n - i,
    {
        let row = skins[i];
        let ghost old_best = best;
        if row.character_id != 0 && row.character_id == hero_id {
            best = match best {
                Some(v) => if row.id > v {
                    Some(row.id)
                } else {
                    Some(v)
                },
                None => Some(row.id),
            };
        }
        proof {
            lemma_extend_greatest(selected, values, i as int, old_best, best);
        }
        i = i + 1;
    }
    proof {
        assert(selected.subrange(0, n as int) =~= selected);
        assert(values.subrange(0, n as int) =~= values);
    }
    match best {
        Some(v) => v,
        None => hero_skin,
    }
}

/// Which talents are of the hero, and the talents' identifiers.
pub open spec fn talents_of(talents: Seq<CharacterTalent>, hero_id: i32) -> (Seq<bool>, Seq<i32>) {
    (
        Seq::new(talents.len(), |k: int| talents[k].hero_id == hero_id),
        Seq::new(talents.len(), |k: int| talents[k].talent_id),
    )
}

/// The talent a new hero starts with: the hero's talent with the least
/// identifier, or 0 where the talent table does not know the hero.
pub fn lowest_talent(talents: &[CharacterTalent], hero_id: i32) -> (talent: i32)
    ensures
        none_selected(talents_of(talents@, hero_id).0) ==> talent == 0,
        !none_selected(talents_of(talents@, hero_id).0) ==> is_least(
            talents_of(talents@, hero_id).0,
            talents_of(talents@, hero_id).1,
            talent,
        ),
{
    let n = talents.len();
    let ghost selected = talents_of(talents@, hero_id).0;
    let ghost values = talents_of(talents@, hero_id).1;
    let mut best: Option<i32> = None;
    let mut i: usize = 0;
    while i < n
        invariant
            n == talents@.len(),
            i <= n,
            selected == talents_of(talents@, hero_id).0,
            values == talents_of(talents@, hero_id).1,
            match best {
                Some(v) => is_least(selected.subrange(0, i as int), values.subrange(0, i as int), v),
                None => none_selected(selected.subrange(0, i as int)),
            },
        decreases n - i,
    {
        let row = talents[i];
        let ghost old_best = best;
        if row.hero_id == hero_id {
            best = match best {
                Some(v) => if row.talent_id < v {
                    Some(row.talent_id)
                } else {
                    Some(v)
                },
                None => Some(row.talent_id),
            };
        }
        proof {
            lemma_extend_least(selected, values, i as int, old_best, best);
        }
        i = i + 1;
    }
    proof {
        assert(selected.subrange(0, n as int) =~= selected);
        assert(values.subrange(0, n as int) =~= values);
    }
    match best {
        Some(v) => v,
        None => 0,
    }
}

/// Which passive-skill rows are of the hero, and the rows' skill groups.
pub open spec fn skill_groups_of(rows: Seq<SkillPassiveLevel>, hero_id: i32) -> (
    Seq<bool>,
    Seq<i32>,
) {
    (
        Seq::new(rows.len(), |k: int| rows[k].hero_id == hero_id),
        Seq::new(rows.len(), |k: int| rows[k].skill_group),
    )
}

/// Which passive-skill rows are of the hero's skill group, and the rows'
/// levels.
pub open spec fn skill_levels_of(rows: Seq<SkillPassiveLevel>, hero_id: i32, group: i32) -> (
    Seq<bool>,
    Seq<i32>,
) {
    (
        Seq::new(rows.len(), |k: int| rows[k].hero_id == hero_id && rows[k].skill_group == group),
        Seq::new(rows.len(), |k: int| rows[k].skill_level),
    )
}

/// The number of passive skills of a hero: the hero's greatest skill group,
/// or 0 where the table does not know the hero.
pub fn highest_skill_group(rows: &[SkillPassiveLevel], hero_id: i32) -> (group: i32)
    ensures
        none_selected(skill_groups_of(rows@, hero_id).0) ==> group == 0,
        !none_selected(skill_groups_of(rows@, hero_id).0) ==> is_greatest(
            skill_groups_of(rows@, hero_id).0,
            skill_groups_of(rows@, hero_id).1,
            group,
        ),
{
    let n = rows.len();
    let ghost selected = skill_groups_of(rows@, hero_id).0;
    let ghost values = skill_groups_of(rows@, hero_id).1;
    let mut best: Option<i32> = None;
    let mut i: usize = 0;
    while i < n
        invariant
            n == rows@.len(),
            i <= n,
            selected == skill_groups_of(rows@, hero_id).0,
            values == skill_groups_of(rows@, hero_id).1,
            match best {
                Some(v) => is_greatest(
                    selected.subrange(0, i as int),
                    values.subrange(0, i as int),
                    v,
                ),
                None => none_selected(selected.subrange(0, i as int)),
            },
        decreases n - i,
    {
        let row = rows[i];
        let ghost old_best = best;
        if row.hero_id == hero_id {
            best = match best {
                Some(v) => if row.skill_group > v {
                    Some(row.skill_group)
                } else {
                    Some(v)
                },
                None => Some(row.skill_group),
            };
        }
        proof {
            lemma_extend_greatest(selected, values, i as int, old_best, best);
        }
        i = i + 1;
    }
    proof {
        assert(selected.subrange(0, n as int) =~= selected);
        assert(values.subrange(0, n as int) =~= values);
    }
    match best {
        Some(v) => v,
        None => 0,
    }
}

/// The level a passive skill of a new hero starts at: the least level of the
/// hero's skill group, or 1 where the table has no level for it.
pub fn lowest_skill_level(rows: &[SkillPassiveLevel], hero_id: i32, group: i32) -> (level: i32)
    ensures
        none_selected(skill_levels_of(rows@, hero_id, group).0) ==> level == 1,
        !none_selected(skill_levels_of(rows@, hero_id, group).0) ==> is_least(
            skill_levels_of(rows@, hero_id, group).0,
            skill_levels_of(rows@, hero_id, group).1,
            level,
        ),
{
    let n = rows.len();
    let ghost selected = skill_levels_of(rows@, hero_id, group).0;
    let ghost values = skill_levels_of(rows@, hero_id, group).1;
    let mut best: Option<i32> = None;
    let mut i: usize = 0;
    while i < n
        invariant
            n == rows@.len(),
            i <= n,
            selected == skill_levels_of(rows@, hero_id, group).0,
            values == skill_levels_of(rows@, hero_id, group).1,
            match best {
                Some(v) => is_least(selected.subrange(0, i as int), values.subrange(0, i as int), v),
                None => none_selected(selected.subrange(0, i as int)),
            },
        decreases n - i,
    {
        let row = rows[i];
        let ghost old_best = best;
        if row.hero_id == hero_id && row.skill_group == group {
            best = match best {
                Some(v) => if row.skill_level < v {
                    Some(row.skill_level)
                } else {
                    Some(v)
                },
                None => Some(row.skill_level),
            };
        }
        proof {
            lemma_extend_least(selected, values, i as int, old_best, best);
        }
        i = i + 1;
    }
    proof {
        assert(selected.subrange(0, n as int) =~= selected);
        assert(values.subrange(0, n as int) =~= values);
    }
    match best {
        Some(v) => v,
        None => 1,
    }
}

/// Whether `level` is the level that skill group `group` of a new hero
/// starts at.
pub open spec fn is_starting_level(
    rows: Seq<SkillPassiveLevel>,
    hero_id: i32,
    group: i32,
    level: i32,
) -> bool {
    if none_selected(skill_levels_of(rows, hero_id, group).0) {
        level == 1
    } else {
        is_least(
            skill_levels_of(rows, hero_id, group).0,
            skill_levels_of(rows, hero_id, group).1,
            level,
        )
    }
}

/// The passive skills a new hero starts with: for each skill group from 1 to
/// `groups`, the skill's index (one less than the group) and its starting
/// level.
pub fn starting_passive_skills(rows: &[SkillPassiveLevel], hero_id: i32, groups: i32) -> (skills:
    Vec<(i32, i32)>)
    ensures
        skills@.len() == if groups > 0 {
            groups as int
        } else {
            0
        },
        forall|k: int|
            0 <= k < skills@.len() ==> (#[trigger] skills@[k]).0 == k && is_starting_level(
                rows@,
                hero_id,
                (k + 1) as i32,
                skills@[k].1,
            ),
{
    let mut skills: Vec<(i32, i32)> = Vec::new();
    let mut group: i32 = 1;
    while group <= groups
        invariant
            1 <= group,
            groups < 1 ==> group == 1,
            groups >= 1 ==> group <= groups + 1,
            skills@.len() == group - 1,
            forall|k: int|
                0 <= k < skills@.len() ==> (#[trigger] skills@[k]).0 == k && is_starting_level(
                    rows@,
                    hero_id,
                    (k + 1) as i32,
                    skills@[k].1,
                ),
        decreases groups - group + 1,
    {
        let level = lowest_skill_level(rows, hero_id, group);
        skills.push((group - 1, level));
        if group == groups {
            return skills;
        }
        group = group + 1;
    }
    skills
}

/// The voice lines among `voices` that a new hero of this identifier knows:
/// the hero's lines of type 9 and 11, by their audio, in table order.
pub open spec fn starting_voices_of(voices: Seq<CharacterVoice>, hero_id: i32) -> Seq<i32>
    decreases voices.len(),
{
    if voices.len() == 0 {
        Seq::<i32>::empty()
    } else {
        let before = starting_voices_of(voices.drop_last(), hero_id);
        let line = voices.last();
        if line.hero_id == hero_id && (line.voice_type == 9 || line.voice_type == 11) {
            before.push(line.audio)
        } else {
            before
        }
    }
}

/// The voice lines a new hero knows.
pub fn starting_voices(voices: &[CharacterVoice], hero_id: i32) -> (audios: Vec<i32>)
    ensures
        audios@ == starting_voices_of(voices@, hero_id),
{
    let mut audios: Vec<i32> = Vec::new();
    let n = voices.len();
    let mut i: usize = 0;
    proof {
        assert(voices@.subrange(0, 0) =~= Seq::<CharacterVoice>::empty());
    }
    while i < n
        invariant
            n == voices@.len(),
            i <= n,
            audios@ == starting_voices_of(voices@.subrange(0, i as int), hero_id),
        decreases n - i,
    {
        proof {
            assert(voices@.subrange(0, i + 1).drop_last() =~= voices@.subrange(0, i as int));
            assert(voices@.subrange(0, i + 1).last() == voices@[i as int]);
        }
        let line = &voices[i];
        if line.hero_id == hero_id && (line.voice_type == 9 || line.voice_type == 11) {
            audios.push(line.audio);
        }
        i = i + 1;
    }
    proof {
        assert(voices@.subrange(0, n as int) =~= voices@);
    }
    audios
}

/// The number at the head of a `#`-separated list, or `fallback` where the
/// first field is no 32-bit decimal number.
pub open spec fn head_id(list: Seq<char>, fallback: i32) -> i32 {
    match i32_value(split(list, '#')[0]) {
        Some(id) => id,
        None => fallback,
    }
}

/// Reads the number at the head of a `#`-separated list.
pub fn first_id_or(list: &str, fallback: i32) -> (id: i32)
    ensures
        id == head_id(list@, fallback),
{
    let chars = chars_of(list);
    let fields = split_chars(&chars, '#');
    proof {
        crate::text::lemma_split_nonempty(chars@, '#');
        assert(fields_view(fields@)[0] == fields@[0]@);
    }
    match parse_i32(&fields[0]) {
        Some(id) => id,
        None => fallback,
    }
}

/// Where a new hero stands in the destiny system.
#[derive(Debug, Clone)]
pub struct DestinyStart {
    pub rank: i32,
    pub level: i32,
    pub stone: i32,
    pub red_dot: i32,
    /// The stones the hero can unlock.
    pub stones: Vec<i32>,
}

/// The position of the first destiny of the hero, or the number of destinies
/// when the hero has none.
pub open spec fn first_destiny(destinies: Seq<CharacterDestiny>, hero_id: i32) -> int
    decreases destinies.len(),
{
    if destinies.len() == 0 {
        0
    } else if destinies[0].hero_id == hero_id {
        0
    } else {
        1 + first_destiny(destinies.drop_first(), hero_id)
    }
}

proof fn lemma_first_destiny_is(destinies: Seq<CharacterDestiny>, hero_id: i32, at: int)
    requires
        0 <= at <= destinies.len(),
        forall|k: int| 0 <= k < at ==> (#[trigger] destinies[k]).hero_id != hero_id,
        at < destinies.len() ==> destinies[at].hero_id == hero_id,
    ensures
        first_destiny(destinies, hero_id) == at,
    decreases destinies.len(),
{
    if destinies.len() > 0 && destinies[0].hero_id != hero_id {
        let rest = destinies.drop_first();
        assert forall|k: int| 0 <= k < at - 1 implies (#[trigger] rest[k]).hero_id != hero_id by {
            assert(rest[k] == destinies[k + 1]);
        }
        lemma_first_destiny_is(rest, hero_id, at - 1);
    }
}

/// Whether `start` is where a new hero of rank `rank` stands in the destiny
/// system: with a destiny, at the hero's rank and level 1, holding the first
/// stone of the list (0 where the list does not start with a number), marked
/// with red dot 6, able to unlock the stones of the list; without one, at
/// zero throughout.
pub open spec fn is_destiny_start(
    start: DestinyStart,
    destinies: Seq<CharacterDestiny>,
    hero_id: i32,
    rank: i32,
) -> bool {
    let at = first_destiny(destinies, hero_id);
    if at < destinies.len() {
        &&& start.rank == rank
        &&& start.level == 1
        &&& start.stone == head_id(destinies[at].facets_id@, 0)
        &&& start.red_dot == 6
        &&& start.stones@ == id_list(destinies[at].facets_id@)
    } else {
        &&& start.rank == 0
        &&& start.level == 0
        &&& start.stone == 0
        &&& start.red_dot == 0
        &&& start.stones@.len() == 0
    }
}

/// Where a new hero of rank `rank` stands in the destiny system.
pub fn destiny_start(destinies: &[CharacterDestiny], hero_id: i32, rank: i32) -> (start:
    DestinyStart)
    ensures
        is_destiny_start(start, destinies@, hero_id, rank),
{
    let n = destinies.len();
    let mut i: usize = 0;
    while i < n
        invariant
            n == destinies@.len(),
            i <= n,
            forall|k: int| 0 <= k < i ==> (#[trigger] destinies@[k]).hero_id != hero_id,
        decreases n - i,
    {
        if destinies[i].hero_id == hero_id {
            proof {
                lemma_first_destiny_is(destinies@, hero_id, i as int);
            }
            let facets = destinies[i].facets_id.as_str();
            return DestinyStart {
                rank,
                level: 1,
                stone: first_id_or(facets, 0),
                red_dot: 6,
                stones: parse_id_list(facets),
            };
        }
        i = i + 1;
    }
    proof {
        lemma_first_destiny_is(destinies@, hero_id, n as int);
    }
    DestinyStart { rank: 0, level: 0, stone: 0, red_dot: 0, stones: Vec::new() }
}

/// The static game data that decides what a new hero starts with.
pub struct HeroGameData<'a> {
    pub characters: &'a [Character],
    pub levels: &'a [CharacterLevel],
    pub ranks: &'a [CharacterRank],
    pub skins: &'a [Skin],
    pub destinies: &'a [CharacterDestiny],
    pub talents: &'a [CharacterTalent],
    pub passive_levels: &'a [SkillPassiveLevel],
    pub voices: &'a [CharacterVoice],
}

/// Why a hero could not be created.
#[derive(Debug, Clone, Copy, PartialEq, Eq, Structural)]
pub enum CreateHeroError {
    /// Every unique identifier is taken.
    UidExhausted,
    /// The static game data has no such hero.
    UnknownHero,
}

/// Everything storage must record for a new hero.
#[derive(Debug, Clone)]
pub struct NewHero {
    pub uid: i64,
    pub user_id: i64,
    pub hero_id: i32,
    pub create_time: i64,
    pub stats: BaseStats,
    pub rank: i32,
    pub skin: i32,
    pub talent: i32,
    pub destiny: DestinyStart,
    pub extra_str: &'static str,
    /// Index and level of each passive skill.
    pub passive_skills: Vec<(i32, i32)>,
    /// Audio of each voice line the hero knows.
    pub voices: Vec<i32>,
    /// The items the hero can use.
    pub item_unlocks: Vec<i32>,
    /// The hero's rarity, which decides the counter of the player's record
    /// that goes up (see `rarity_column`).
    pub rarity: i32,
}

/// Whether `rank` is the rank a new hero starts with.
pub open spec fn is_starting_rank(ranks: Seq<CharacterRank>, hero_id: i32, rank: i32) -> bool {
    if none_selected(ranks_of(ranks, hero_id).0) {
        rank == 1
    } else {
        is_least(ranks_of(ranks, hero_id).0, ranks_of(ranks, hero_id).1, rank)
    }
}

/// Whether `skin` is the skin a new hero wears, given the skin of the hero's
/// character.
pub open spec fn is_starting_skin(skins: Seq<Skin>, hero_id: i32, hero_skin: i32, skin: i32) -> bool {
    if none_selected(skins_of(skins, hero_id).0) {
        skin == hero_skin
    } else {
        is_greatest(skins_of(skins, hero_id).0, skins_of(skins, hero_id).1, skin)
    }
}

/// Whether `talent` is the talent a new hero starts with.
pub open spec fn is_starting_talent(talents: Seq<CharacterTalent>, hero_id: i32, talent: i32) -> bool {
    if none_selected(talents_of(talents, hero_id).0) {
        talent == 0
    } else {
        is_least(talents_of(talents, hero_id).0, talents_of(talents, hero_id).1, talent)
    }
}

/// Whether `skills` are the passive skills a new hero starts with: one for
/// each skill group from 1 to the hero's greatest, each at its starting level.
pub open spec fn is_starting_skills(
    rows: Seq<SkillPassiveLevel>,
    hero_id: i32,
    skills: Seq<(i32, i32)>,
) -> bool {
    &&& if none_selected(skill_groups_of(rows, hero_id).0) {
        skills.len() == 0
    } else {
        exists|groups: i32|
            is_greatest(skill_groups_of(rows, hero_id).0, skill_groups_of(rows, hero_id).1, groups)
                && skills.len() == if groups > 0 {
                groups as int
            } else {
                0
            }
    }
    &&& forall|k: int|
        0 <= k < skills.len() ==> (#[trigger] skills[k]).0 == k && is_starting_level(
            rows,
            hero_id,
            (k + 1) as i32,
            skills[k].1,
        )
}

/// Whether `hero` is what storage must record for a new hero of the player,
/// made at `now` after the hero with identifier `last`.
pub open spec fn is_new_hero(
    hero: NewHero,
    data: HeroGameData<'_>,
    last: Option<i64>,
    user_id: i64,
    hero_id: i32,
    now: i64,
) -> bool {
    let character = data.characters@[first_character(data.characters@, hero_id)];
    &&& hero.uid == match last {
        Some(l) => l + 1,
        None => 20000001,
    }
    &&& hero.user_id == user_id
    &&& hero.hero_id == hero_id
    &&& hero.create_time == now
    &&& is_starting_stats(data.levels@, hero_id, hero.stats)
    &&& is_starting_rank(data.ranks@, hero_id, hero.rank)
    &&& is_starting_skin(data.skins@, hero_id, character.skin_id, hero.skin)
    &&& is_starting_talent(data.talents@, hero_id, hero.talent)
    &&& is_destiny_start(hero.destiny, data.destinies@, hero_id, hero.rank)
    &&& hero.extra_str@ == extra_text(hero_id)
    &&& is_starting_skills(data.passive_levels@, hero_id, hero.passive_skills@)
    &&& hero.voices@ == starting_voices_of(data.voices@, hero_id)
    &&& hero.item_unlocks@ == seq![6i32, 3i32, 7i32, 4i32]
    &&& hero.rarity == character.rare
}

/// Decides everything storage must record for a new hero.
///
/// There is no hero when the unique identifiers are used up, or when the
/// static game data has no character a hero can be made of. Otherwise the new
/// hero starts at its lowest level and rank, wears its newest skin, and knows
/// its first talent, its passive skills at their lowest level and its voice
/// lines of type 9 and 11.
pub fn create_hero(
    data: &HeroGameData<'_>,
    last_hero_uid: Option<i64>,
    user_id: i64,
    hero_id: i32,
    now: i64,
) -> (r: Result<NewHero, CreateHeroError>)
    ensures
        last_hero_uid == Some(i64::MAX) ==> r == Err::<NewHero, CreateHeroError>(
            CreateHeroError::UidExhausted,
        ),
        last_hero_uid != Some(i64::MAX) && (!creatable(hero_id) || first_character(
            data.characters@,
            hero_id,
        ) == data.characters@.len()) ==> r == Err::<NewHero, CreateHeroError>(
            CreateHeroError::UnknownHero,
        ),
        last_hero_uid != Some(i64::MAX) && creatable(hero_id) && first_character(
            data.characters@,
            hero_id,
        ) < data.characters@.len() ==> (r matches Ok(hero) && is_new_hero(
            hero,
            *data,
            last_hero_uid,
            user_id,
            hero_id,
            now,
        )),
{
    let uid = match next_hero_uid(last_hero_uid) {
        Some(uid) => uid,
        None => {
            return Err(CreateHeroError::UidExhausted);
        },
    };
    let character = match find_hero_character(data.characters, hero_id) {
        Some(character) => character,
        None => {
            proof {
                lemma_first_character(data.characters@, hero_id);
            }
            return Err(CreateHeroError::UnknownHero);
        },
    };
    let stats = level_one_stats(data.levels, hero_id);
    let rank = lowest_rank(data.ranks, hero_id);
    let skin = default_skin(data.skins, hero_id, character.skin_id);
    let talent = lowest_talent(data.talents, hero_id);
    let destiny = destiny_start(data.destinies, hero_id, rank);
    let groups = highest_skill_group(data.passive_levels, hero_id);
    let passive_skills = starting_passive_skills(data.passive_levels, hero_id, groups);
    let voices = starting_voices(data.voices, hero_id);
    let mut item_unlocks: Vec<i32> = Vec::new();
    item_unlocks.push(6);
    item_unlocks.push(3);
    item_unlocks.push(7);
    item_unlocks.push(4);
    proof {
        assert(item_unlocks@ =~= seq![6i32, 3i32, 7i32, 4i32]);
    }
    Ok(
        NewHero {
            uid,
            user_id,
            hero_id,
            create_time: now,
            stats,
            rank,
            skin,
            talent,
            destiny,
            extra_str: extra_str(hero_id),
            passive_skills,
            voices,
            item_unlocks,
            rarity: character.rare,
        },
    )
}

} // verus!
