//! Static game data, loaded once and then only read.

pub mod character;
pub mod character_voice;
pub mod guide;
pub mod id_index;
pub mod layout;
