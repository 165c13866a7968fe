//! The table of character voice lines.

use vstd::prelude::*;

verus! {

/// One voice line of a character. `voice_type` is what the data file calls `type`.
#[derive(Debug, Clone)]
pub struct CharacterVoice {
    pub addaudio: String,
    pub audio: i32,
    pub content: String,
    pub decontent: String,
    pub deface: String,
    pub demotion: String,
    pub demouth: String,
    pub display_time: i32,
    pub encontent: String,
    pub enface: String,
    pub enmotion: String,
    pub enmouth: String,
    pub face: String,
    pub frcontent: String,
    pub frface: String,
    pub frmotion: String,
    pub frmouth: String,
    pub hero_id: i32,
    pub jpcontent: String,
    pub jpface: String,
    pub jpmotion: String,
    pub jpmouth: String,
    pub kocontent: String,
    pub krface: String,
    pub krmotion: String,
    pub krmouth: String,
    pub motion: String,
    pub mouth: String,
    pub name: String,
    pub param: String,
    pub param2: String,
    pub show: i32,
    pub skins: String,
    pub sort_id: i32,
    pub state_condition: i32,
    pub thaicontent: String,
    pub thaiface: String,
    pub thaimotion: String,
    pub thaimouth: String,
    pub time: String,
    pub twcontent: String,
    pub twface: String,
    pub twmotion: String,
    pub twmouth: String,
    pub voice_type: i32,
    pub unlock_condition: String,
}

/// The voice lines in file order.
pub struct CharacterVoiceTable {
    records: Vec<CharacterVoice>,
}

impl View for CharacterVoiceTable {
    type V = Seq<CharacterVoice>;

    closed spec fn view(&self) -> Seq<CharacterVoice> {
        self.records@
    }
}

impl CharacterVoiceTable {
    /// Makes the table of the given voice lines.
    pub fn from_records(records: Vec<CharacterVoice>) -> (table: Self)
        ensures
            table@ == records@,
    {
        CharacterVoiceTable { records }
    }

    /// All voice lines, in file order.
    pub fn all(&self) -> (voices: &[CharacterVoice])
        ensures
            voices@ == self@,
    {
        self.records.as_slice()
    }

    /// An iterator over the voice lines, in file order.
    pub fn iter(&self) -> (voices: std::slice::Iter<'_, CharacterVoice>)
        ensures
            vstd::std_specs::slice::into_iter_elts(voices) == self@,
    {
        self.records.as_slice().iter()
    }

    /// Number of voice lines.
    pub fn len(&self) -> (n: usize)
        ensures
            n == self@.len(),
    {
        self.records.len()
    }

    /// Whether the table holds no voice line.
    pub fn is_empty(&self) -> (empty: bool)
        ensures
            empty == (self@.len() == 0),
    {
        self.records.is_empty()
    }
}

} // verus!
