//! Contents of the server-initiated notifications.
//!
//! Each function decides whether a notification is due and what it holds. The
//! connection task serializes the message and sends it as a push of the
//! session.

use crate::red_dots::group_red_dots;
use crate::red_dots::groups_of;
use crate::red_dots::RedDotGroup;
use crate::red_dots::RedDotRecord;
use vstd::prelude::*;

verus! {

/// The red dots of a player, grouped by feature.
#[derive(Debug, Clone)]
pub struct UpdateRedDotPush {
    pub red_dot_infos: Vec<RedDotGroup>,
    pub replace_all: Option<bool>,
}

/// The items of a player that changed, with the timed items the player holds.
#[derive(Debug, Clone)]
pub struct ItemChangePush<I, P, N> {
    pub items: Vec<I>,
    pub power_items: Vec<P>,
    pub insight_items: Vec<N>,
}

/// One granted material: its type, its identifier and how many.
#[derive(Debug, Clone, Copy, PartialEq, Eq, Structural)]
pub struct MaterialData {
    pub materil_type: Option<u32>,
    pub materil_id: Option<u32>,
    pub quantity: Option<i32>,
}

/// The materials a player was granted, and where they came from.
#[derive(Debug, Clone)]
pub struct MaterialChangePush {
    pub data_list: Vec<MaterialData>,
    pub get_approach: Option<u32>,
}

/// The result screen of a dungeon.
#[derive(Debug, Clone)]
pub struct EndDungeonPush {
    pub chapter_id: Option<i32>,
    pub episode_id: Option<i32>,
    pub player_exp: Option<i32>,
    pub star: Option<i32>,
    pub first_bonus: Vec<MaterialData>,
    pub normal_bonus: Vec<MaterialData>,
    pub advenced_bonus: Vec<MaterialData>,
    pub addition_bonus: Vec<MaterialData>,
    pub time_first_bonus: Vec<MaterialData>,
    pub drop_bonus: Vec<MaterialData>,
    pub update_dungeon_record: Option<bool>,
    pub can_update_dungeon_record: Option<bool>,
    pub old_record_round: Option<i32>,
    pub new_record_round: Option<i32>,
    pub first_pass: Option<bool>,
    pub extra_str: Option<String>,
    pub assist_user_id: Option<i64>,
    pub assist_nickname: Option<String>,
    pub total_round: Option<i32>,
}

/// A player's record of one episode.
#[derive(Debug, Clone, Copy, PartialEq, Eq, Structural)]
pub struct UserDungeon {
    pub chapter_id: Option<i32>,
    pub episode_id: Option<i32>,
    pub star: Option<i32>,
    pub challenge_count: Option<i32>,
    pub has_record: Option<bool>,
    pub left_return_all_num: Option<i32>,
    pub today_pass_num: Option<i32>,
    pub today_total_num: Option<i32>,
}

/// Today's passes and attempts in one type of chapter.
#[derive(Debug, Clone, Copy, PartialEq, Eq, Structural)]
pub struct UserChapterTypeNum {
    pub chapter_type: Option<i32>,
    pub today_pass_num: Option<i32>,
    pub today_total_num: Option<i32>,
}

/// A player's progress after a dungeon.
#[derive(Debug, Clone)]
pub struct DungeonUpdatePush {
    pub dungeon_info: Option<UserDungeon>,
    pub chapter_type_nums: Vec<UserChapterTypeNum>,
}

/// The material that a reward of (type, identifier, quantity) stands for.
pub open spec fn material_of(reward: (u32, u32, i32)) -> MaterialData {
    MaterialData {
        materil_type: Some(reward.0),
        materil_id: Some(reward.1),
        quantity: Some(reward.2),
    }
}

/// The materials of a list of rewards, in order.
pub open spec fn materials_of(rewards: Seq<(u32, u32, i32)>) -> Seq<MaterialData> {
    Seq::new(rewards.len(), |i: int| material_of(rewards[i]))
}

/// Turns rewards of (type, identifier, quantity) into materials.
pub fn materials_from(rewards: &Vec<(u32, u32, i32)>) -> (materials: Vec<MaterialData>)
    ensures
        materials@ == materials_of(rewards@),
{
    let n = rewards.len();
    let mut materials: Vec<MaterialData> = Vec::with_capacity(n);
    let mut i: usize = 0;
    while i < n
        invariant
            n == rewards@.len(),
            i <= n,
            materials@ == materials_of(rewards@).subrange(0, i as int),
        decreases n - i,
    {
        let reward = rewards[i];
        materials.push(
            MaterialData {
                materil_type: Some(reward.0),
                materil_id: Some(reward.1),
                quantity: Some(reward.2),
            },
        );
        i = i + 1;
        assert(materials@ =~= materials_of(rewards@).subrange(0, i as int));
    }
    assert(materials@ =~= materials_of(rewards@));
    materials
}

/// The red-dot notification for the records found, or none when there are no
/// records. The notification replaces what the client holds.
pub fn red_dot_push(records: Vec<RedDotRecord>) -> (push: Option<UpdateRedDotPush>)
    ensures
        records@.len() == 0 ==> push is None,
        records@.len() > 0 ==> (push matches Some(p) && groups_of(p.red_dot_infos@, records@)
            && p.replace_all == Some(true)),
{
    if records.is_empty() {
        None
    } else {
        Some(UpdateRedDotPush { red_dot_infos: group_red_dots(records), replace_all: Some(true) })
    }
}

/// The item notification for what storage returned, or none when all three
/// lists are empty.
pub fn item_change_push<I, P, N>(items: Vec<I>, power_items: Vec<P>, insight_items: Vec<N>) -> (push:
    Option<ItemChangePush<I, P, N>>)
    ensures
        items@.len() == 0 && power_items@.len() == 0 && insight_items@.len() == 0 ==> push is None,
        items@.len() > 0 || power_items@.len() > 0 || insight_items@.len() > 0 ==> (
        push matches Some(p) && p.items@ == items@ && p.power_items@ == power_items@
            && p.insight_items@ == insight_items@),
{
    if items.is_empty() && power_items.is_empty() && insight_items.is_empty() {
        None
    } else {
        Some(ItemChangePush { items, power_items, insight_items })
    }
}

/// The reward notification for a list of rewards, or none when the list is
/// empty. `get_approach` says where the rewards came from.
pub fn material_change_push(rewards: Vec<(u32, u32, i32)>, get_approach: Option<u32>) -> (push:
    Option<MaterialChangePush>)
    ensures
        rewards@.len() == 0 ==> push is None,
        rewards@.len() > 0 ==> (push matches Some(p) && p.data_list@ == materials_of(rewards@)
            && p.get_approach == get_approach),
{
    if rewards.is_empty() {
        None
    } else {
        Some(MaterialChangePush { data_list: materials_from(&rewards), get_approach })
    }
}

/// Whether the message is the result screen of the episode with the given
/// normal bonus: two stars, no experience, no record, no other bonus, no
/// assist.
pub open spec fn is_end_dungeon_push(
    push: EndDungeonPush,
    chapter_id: i32,
    episode_id: i32,
    normal_bonus: Seq<(u32, u32, i32)>,
) -> bool {
    &&& push.chapter_id == Some(chapter_id)
    &&& push.episode_id == Some(episode_id)
    &&& push.player_exp == Some(0i32)
    &&& push.star == Some(2i32)
    &&& push.first_bonus@.len() == 0
    &&& push.normal_bonus@ == materials_of(normal_bonus)
    &&& push.advenced_bonus@.len() == 0
    &&& push.addition_bonus@.len() == 0
    &&& push.time_first_bonus@.len() == 0
    &&& push.drop_bonus@.len() == 0
    &&& push.update_dungeon_record == Some(false)
    &&& push.can_update_dungeon_record == Some(false)
    &&& push.old_record_round == Some(0i32)
    &&& push.new_record_round == Some(0i32)
    &&& push.first_pass == Some(false)
    &&& (push.extra_str matches Some(s) && s@.len() == 0)
    &&& push.assist_user_id == Some(0i64)
    &&& (push.assist_nickname matches Some(s) && s@.len() == 0)
    &&& push.total_round == Some(0i32)
}

/// The result screen of an episode.
pub fn end_dungeon_push(chapter_id: i32, episode_id: i32, normal_bonus: Vec<(u32, u32, i32)>) -> (push:
    EndDungeonPush)
    ensures
        is_end_dungeon_push(push, chapter_id, episode_id, normal_bonus@),
{
    EndDungeonPush {
        chapter_id: Some(chapter_id),
        episode_id: Some(episode_id),
        player_exp: Some(0),
        star: Some(2),
        first_bonus: Vec::new(),
        normal_bonus: materials_from(&normal_bonus),
        advenced_bonus: Vec::new(),
        addition_bonus: Vec::new(),
        time_first_bonus: Vec::new(),
        drop_bonus: Vec::new(),
        update_dungeon_record: Some(false),
        can_update_dungeon_record: Some(false),
        old_record_round: Some(0),
        new_record_round: Some(0),
        first_pass: Some(false),
        extra_str: Some(String::new()),
        assist_user_id: Some(0),
        assist_nickname: Some(String::new()),
        total_round: Some(0),
    }
}

/// The progress of a player after an episode: the episode's record, with two
/// passes and two attempts counted for today, and today's numbers of the
/// chapter type.
pub fn dungeon_update_push(
    chapter_id: i32,
    episode_id: i32,
    star: i32,
    challenge_count: i32,
    has_record: bool,
    chapter_type: i32,
    chapter_today_pass: i32,
    chapter_today_total: i32,
) -> (push: DungeonUpdatePush)
    ensures
        push.dungeon_info == Some(
            UserDungeon {
                chapter_id: Some(chapter_id),
                episode_id: Some(episode_id),
                star: Some(star),
                challenge_count: Some(challenge_count),
                has_record: Some(has_record),
                left_return_all_num: Some(0i32),
                today_pass_num: Some(2i32),
                today_total_num: Some(2i32),
            },
        ),
        push.chapter_type_nums@ == seq![
            UserChapterTypeNum {
                chapter_type: Some(chapter_type),
                today_pass_num: Some(chapter_today_pass),
                today_total_num: Some(chapter_today_total),
            },
        ],
{
    let dungeon_info = UserDungeon {
        chapter_id: Some(chapter_id),
        episode_id: Some(episode_id),
        star: Some(star),
        challenge_count: Some(challenge_count),
        has_record: Some(has_record),
        left_return_all_num: Some(0),
        today_pass_num: Some(2),
        today_total_num: Some(2),
    };
    let mut chapter_type_nums: Vec<UserChapterTypeNum> = Vec::new();
    chapter_type_nums.push(
        UserChapterTypeNum {
            chapter_type: Some(chapter_type),
            today_pass_num: Some(chapter_today_pass),
            today_total_num: Some(chapter_today_total),
        },
    );
    assert(chapter_type_nums@ =~= seq![
        UserChapterTypeNum {
            chapter_type: Some(chapter_type),
            today_pass_num: Some(chapter_today_pass),
            today_total_num: Some(chapter_today_total),
        },
    ]);
    DungeonUpdatePush { dungeon_info: Some(dungeon_info), chapter_type_nums }
}

} // verus!
