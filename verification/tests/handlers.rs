use sonetto_core::clock::cur_time_ms_u128;
use sonetto_core::clock::millis_or_zero;
use sonetto_core::clock::millis_to_u64;
use sonetto_core::clock::time_ms_u64;
use sonetto_core::cmd::on_choose_enhanced_pool_hero;
use sonetto_core::cmd::require_field;
use sonetto_core::cmd::require_found;
use sonetto_core::cmd::state_pushes_due;
use sonetto_core::cmd::EnhancedPoolChoice;
use sonetto_core::cmd::StatePush;
use sonetto_core::error::AppError;
use sonetto_core::gacha::advance_pity;
use sonetto_core::gacha::draw_weighted;
use sonetto_core::gacha::is_six_star;
use sonetto_core::gacha::pull_six_star;
use sonetto_core::push::dungeon_update_push;
use sonetto_core::push::end_dungeon_push;
use sonetto_core::push::item_change_push;
use sonetto_core::push::material_change_push;
use sonetto_core::push::materials_from;
use sonetto_core::push::red_dot_push;
use sonetto_core::push::MaterialData;
use sonetto_core::push::UserChapterTypeNum;
use sonetto_core::push::UserDungeon;
use sonetto_core::red_dots::RedDotRecord;
use sonetto_core::session::ConnectionContext;
use sonetto_core::text::chars_of;
use sonetto_core::text::parse_i32;
use sonetto_core::text::parse_i64;
use sonetto_core::text::split_chars;

fn material(t: u32, id: u32, q: i32) -> MaterialData {
    MaterialData { materil_type: Some(t), materil_id: Some(id), quantity: Some(q) }
}

#[test]
fn account_summary_is_owed_once() {
    let mut session = ConnectionContext::new();
    assert_eq!(
        state_pushes_due(&mut session),
        vec![StatePush::CurrencyFirst, StatePush::Item, StatePush::CurrencySecond, StatePush::Material]
    );
    assert!(state_pushes_due(&mut session).is_empty());
    assert!(!session.check_and_mark_state_pushes());
    assert_eq!(StatePush::CurrencyFirst.file(), "currency/currency_push_1.json");
    assert_eq!(StatePush::Item.file(), "item/item_push_1.json");
    assert_eq!(StatePush::CurrencySecond.file(), "currency/currency_push_2.json");
    assert_eq!(StatePush::Material.file(), "material/material_push_1.json");
}

#[test]
fn enhanced_pool_choice_is_checked_in_order() {
    let mut session = ConnectionContext::new();
    assert_eq!(on_choose_enhanced_pool_hero(&session, None, Some(1)), Err(AppError::InvalidRequest));
    assert_eq!(on_choose_enhanced_pool_hero(&session, Some(1), None), Err(AppError::InvalidRequest));
    assert_eq!(on_choose_enhanced_pool_hero(&session, None, None), Err(AppError::InvalidRequest));
    assert_eq!(on_choose_enhanced_pool_hero(&session, Some(1), Some(2)), Err(AppError::NotLoggedIn));
    session.bind_identity(9).unwrap();
    assert_eq!(on_choose_enhanced_pool_hero(&session, None, Some(1)), Err(AppError::InvalidRequest));
    assert_eq!(
        on_choose_enhanced_pool_hero(&session, Some(1), Some(2)),
        Ok(EnhancedPoolChoice { player_id: 9, pool_id: 1, hero_id: 2 })
    );
}

#[test]
fn required_values_turn_into_errors() {
    assert_eq!(require_field(Some(3)), Ok(3));
    assert_eq!(require_field::<i32>(None), Err(AppError::InvalidRequest));
    assert_eq!(require_found(Some("stats"), "User stats not found"), Ok("stats"));
    assert_eq!(
        require_found::<i32>(None, "User stats not found"),
        Err(AppError::Custom("User stats not found".to_string()))
    );
}

#[test]
fn pushes_are_made_only_when_there_is_something_to_say() {
    assert!(red_dot_push(Vec::new()).is_none());
    let record = RedDotRecord {
        player_id: 1,
        define_id: 2218,
        info_id: 0,
        value: 1,
        time: 0,
        ext: String::new(),
        replace_all: false,
    };
    let push = red_dot_push(vec![record]).unwrap();
    assert_eq!(push.replace_all, Some(true));
    assert_eq!(push.red_dot_infos.len(), 1);
    assert_eq!(push.red_dot_infos[0].define_id, 2218);
    assert!(!push.red_dot_infos[0].replace_all);

    assert!(item_change_push::<u8, u8, u8>(Vec::new(), Vec::new(), Vec::new()).is_none());
    let push = item_change_push::<u8, u16, u32>(Vec::new(), vec![5], Vec::new()).unwrap();
    assert!(push.items.is_empty() && push.insight_items.is_empty());
    assert_eq!(push.power_items, vec![5]);
    let push = item_change_push(vec![1u8], vec![2u8], vec![3u8]).unwrap();
    assert_eq!((push.items, push.power_items, push.insight_items), (vec![1], vec![2], vec![3]));

    assert!(material_change_push(Vec::new(), Some(25)).is_none());
    let push = material_change_push(vec![(2, 5, 100), (1, 3, -1)], Some(25)).unwrap();
    assert_eq!(push.data_list, vec![material(2, 5, 100), material(1, 3, -1)]);
    assert_eq!(push.get_approach, Some(25));
    assert_eq!(materials_from(&Vec::new()), Vec::<MaterialData>::new());
}

#[test]
fn dungeon_pushes_hold_the_fixed_values() {
    let push = end_dungeon_push(3, 14, vec![(2, 5, 100)]);
    assert_eq!(push.chapter_id, Some(3));
    assert_eq!(push.episode_id, Some(14));
    assert_eq!(push.player_exp, Some(0));
    assert_eq!(push.star, Some(2));
    assert_eq!(push.normal_bonus, vec![material(2, 5, 100)]);
    assert!(push.first_bonus.is_empty() && push.advenced_bonus.is_empty());
    assert!(push.addition_bonus.is_empty() && push.time_first_bonus.is_empty() && push.drop_bonus.is_empty());
    assert_eq!(push.update_dungeon_record, Some(false));
    assert_eq!(push.can_update_dungeon_record, Some(false));
    assert_eq!((push.old_record_round, push.new_record_round, push.total_round), (Some(0), Some(0), Some(0)));
    assert_eq!(push.first_pass, Some(false));
    assert_eq!(push.extra_str.as_deref(), Some(""));
    assert_eq!(push.assist_user_id, Some(0));
    assert_eq!(push.assist_nickname.as_deref(), Some(""));

    let push = dungeon_update_push(3, 14, 2, 7, true, 6, 1, 4);
    assert_eq!(
        push.dungeon_info,
        Some(UserDungeon {
            chapter_id: Some(3),
            episode_id: Some(14),
            star: Some(2),
            challenge_count: Some(7),
            has_record: Some(true),
            left_return_all_num: Some(0),
            today_pass_num: Some(2),
            today_total_num: Some(2),
        })
    );
    assert_eq!(
        push.chapter_type_nums,
        vec![UserChapterTypeNum { chapter_type: Some(6), today_pass_num: Some(1), today_total_num: Some(4) }]
    );
}

#[test]
fn clock_counts_milliseconds_since_1970() {
    let wide = cur_time_ms_u128();
    let narrow = time_ms_u64();
    assert!(wide > 1_600_000_000_000);
    assert!(narrow as u128 >= wide);
    assert!(narrow as u128 - wide < 60_000);
    assert_eq!(millis_or_zero(Some(1_700_000_000_123)), 1_700_000_000_123);
    assert_eq!(millis_or_zero(Some(u128::MAX)), u128::MAX);
    assert_eq!(millis_or_zero(None), 0);
    assert_eq!(millis_to_u64(5), 5);
    assert_eq!(millis_to_u64(u64::MAX as u128), u64::MAX);
    assert_eq!(millis_to_u64(u64::MAX as u128 + 6), 5);
}

#[test]
fn pity_moves_on_with_each_pull() {
    assert_eq!(advance_pity(0, false), 1);
    assert_eq!(advance_pity(69, false), 70);
    assert_eq!(advance_pity(69, true), 0);
    assert_eq!(advance_pity(0, true), 0);
    assert_eq!(advance_pity(u32::MAX, false), u32::MAX);
    assert!(is_six_star(0, 14_999));
    assert!(!is_six_star(0, 15_000));
    assert!(is_six_star(60, 39_999));
    assert!(!is_six_star(60, 40_000));
    assert!(is_six_star(70, 999_999));
    for _ in 0..50 {
        assert_eq!(pull_six_star(70), (true, 0));
        let (hit, next) = pull_six_star(10);
        assert_eq!(next, if hit { 0 } else { 11 });
    }
}

#[test]
fn random_draws_pick_items_of_the_list() {
    let items = [(1u8, 0u32), (2u8, 1_000_000u32), (3u8, 5u32)];
    for _ in 0..200 {
        assert_eq!(draw_weighted(&items), 2);
    }
    let halves = [('a', 500_000u32), ('b', 500_000u32)];
    let mut seen = [false, false];
    for _ in 0..400 {
        match draw_weighted(&halves) {
            'a' => seen[0] = true,
            'b' => seen[1] = true,
            other => panic!("{other} is not in the list"),
        }
    }
    assert!(seen[0] && seen[1]);
}

#[test]
fn text_is_cut_at_every_delimiter() {
    let fields = |s: &str| -> Vec<String> {
        split_chars(&chars_of(s), '#').into_iter().map(|f| f.into_iter().collect()).collect()
    };
    for text in ["", "#", "a", "a#b", "#a", "a#", "a##b", "日#本", "##"] {
        let expected: Vec<String> = text.split('#').map(|f| f.to_string()).collect();
        assert_eq!(fields(text), expected);
    }
    assert_eq!(chars_of("héllo"), vec!['h', 'é', 'l', 'l', 'o']);
}

#[test]
fn numbers_are_read_as_the_standard_parser_reads_them() {
    let texts = [
        "", "0", "-0", "+0", "+", "-", "--1", "+-1", "1 ", " 1", "0001", "-0001", "12345678901234567890",
        "9223372036854775807", "9223372036854775808", "-9223372036854775808", "-9223372036854775809",
        "2147483647", "2147483648", "-2147483648", "-2147483649", "1_0", "١٢", "1.0", "0x1", "७",
        "00000000000000000000000000000000000000001", "-00000000000000000000000000000000000002147483648",
    ];
    for text in texts {
        let chars: Vec<char> = text.chars().collect();
        assert_eq!(parse_i32(&chars), text.parse::<i32>().ok(), "{text:?} as i32");
        assert_eq!(parse_i64(&chars), text.parse::<i64>().ok(), "{text:?} as i64");
    }
}
