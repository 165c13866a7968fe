//! The table of playable characters.

use crate::exceldb::id_index::build_index;
use crate::exceldb::id_index::find_position;
use crate::exceldb::id_index::indexes;
use crate::exceldb::id_index::last_position;
use std::collections::HashMap;
use vstd::prelude::*;

verus! {

/// One playable character.
#[derive(Debug, Clone)]
pub struct Character {
    pub actor: String,
    pub ai: i32,
    pub battle_tag: String,
    pub birthday_bonus: String,
    pub career: i32,
    pub character_tag: String,
    pub desc: String,
    pub desc2: String,
    pub dmg_type: i32,
    pub duplicate_item: String,
    pub duplicate_item2: String,
    pub equip_rec: String,
    pub ex_skill: i32,
    pub first_item: String,
    pub gender: i32,
    pub hero_type: i32,
    pub id: i32,
    pub initials: String,
    pub is_online: String,
    pub mvskin_id: i32,
    pub name: String,
    pub name_eng: String,
    pub photo_frame_bg: i32,
    pub power_max: String,
    pub rank: i32,
    pub rare: i32,
    pub resistance: i32,
    pub role_birthday: String,
    pub school: i32,
    pub signature: String,
    pub skill: String,
    pub skin_id: i32,
    pub stat: i32,
    pub trust: i32,
    pub unique_skill_point: String,
    pub use_desc: String,
}

/// The identifiers of the characters, in order.
pub open spec fn character_ids(records: Seq<Character>) -> Seq<i32> {
    Seq::new(records.len(), |i: int| records[i].id)
}

/// The characters in file order, found by identifier.
pub struct CharacterTable {
    records: Vec<Character>,
    by_id: HashMap<i32, usize>,
}

impl CharacterTable {
    #[verifier::type_invariant]
    spec fn well_formed(&self) -> bool {
        indexes(self.by_id@, character_ids(self.records@))
    }

    /// The characters, in file order.
    pub closed spec fn records(&self) -> Seq<Character> {
        self.records@
    }

    /// The character that `get` finds: the last one with the identifier.
    pub open spec fn found(&self, id: i32) -> Option<Character> {
        match last_position(character_ids(self.records()), id) {
            Some(at) => Some(self.records()[at]),
            None => None,
        }
    }

    /// Makes the table of the given characters.
    pub fn from_records(records: Vec<Character>) -> (table: Self)
        ensures
            table.records() == records@,
    {
        let n = records.len();
        let mut ids: Vec<i32> = Vec::with_capacity(n);
        let mut i: usize = 0;
        while i < n
            invariant
                n == records@.len(),
                i <= n,
                ids@ == character_ids(records@).subrange(0, i as int),
            decreases n - i,
        {
            ids.push(records[i].id);
            i = i + 1;
            assert(ids@ =~= character_ids(records@).subrange(0, i as int));
        }
        assert(ids@ =~= character_ids(records@));
        let by_id = build_index(&ids);
        CharacterTable { records, by_id }
    }

    /// The character with the identifier; the last one where several share it.
    pub fn get(&self, id: i32) -> (character: Option<&Character>)
        ensures
            character matches Some(g) ==> self.found(id) == Some(*g),
            character is None ==> self.found(id) is None,
    {
        proof {
            use_type_invariant(self);
        }
        match find_position(&self.by_id, Ghost(character_ids(self.records@)), id) {
            Some(at) => Some(&self.records[at]),
            None => None,
        }
    }

    /// All characters, in file order.
    pub fn all(&self) -> (characters: &[Character])
        ensures
            characters@ == self.records(),
    {
        self.records.as_slice()
    }

    /// An iterator over the characters, in file order.
    pub fn iter(&self) -> (characters: std::slice::Iter<'_, Character>)
        ensures
            vstd::std_specs::slice::into_iter_elts(characters) == self.records(),
    {
        self.records.as_slice().iter()
    }

    /// Number of characters.
    pub fn len(&self) -> (n: usize)
        ensures
            n == self.records().len(),
    {
        self.records.len()
    }

    /// Whether the table holds no character.
    pub fn is_empty(&self) -> (empty: bool)
        ensures
            empty == (self.records().len() == 0),
    {
        self.records.is_empty()
    }
}

} // verus!
