//! Background music a player has unlocked.

use vstd::prelude::*;

verus! {

/// One unlocked track, as stored.
#[derive(Debug, Clone, Copy)]
pub struct UserBgm {
    pub player_id: i64,
    pub bgm_id: i32,
    pub unlock_time: i64,
    pub is_favorite: bool,
    pub is_read: bool,
}

/// The track a player has chosen, as stored.
#[derive(Debug, Clone, Copy)]
pub struct UserBgmState {
    pub player_id: i64,
    pub use_bgm_id: i32,
}

/// One unlocked track, as the client is told. The unlock time travels in 32
/// bits.
#[derive(Debug, Clone, Copy)]
pub struct BgmInfo {
    pub bgm_id: Option<i32>,
    pub unlock_time: Option<i32>,
    pub favorite: Option<bool>,
    pub is_read: Option<bool>,
}

impl From<UserBgm> for BgmInfo {
    fn from(bgm: UserBgm) -> (info: BgmInfo) {
        BgmInfo {
            bgm_id: Some(bgm.bgm_id),
            unlock_time: Some(
                #[verifier::truncate]
                (bgm.unlock_time as i32),
            ),
            favorite: Some(bgm.is_favorite),
            is_read: Some(bgm.is_read),
        }
    }
}

impl vstd::std_specs::convert::FromSpecImpl<UserBgm> for BgmInfo {
    open spec fn obeys_from_spec() -> bool {
        true
    }

    open spec fn from_spec(bgm: UserBgm) -> BgmInfo {
        BgmInfo {
            bgm_id: Some(bgm.bgm_id),
            unlock_time: Some(bgm.unlock_time as i32),
            favorite: Some(bgm.is_favorite),
            is_read: Some(bgm.is_read),
        }
    }
}

} // verus!
