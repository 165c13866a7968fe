use sonetto_core::exceldb::character::Character;
use sonetto_core::exceldb::character_voice::CharacterVoice;
use sonetto_core::heroes::create_hero;
use sonetto_core::heroes::default_skin;
use sonetto_core::heroes::destiny_start;
use sonetto_core::heroes::extra_str;
use sonetto_core::heroes::find_hero_character;
use sonetto_core::heroes::first_id_or;
use sonetto_core::heroes::highest_skill_group;
use sonetto_core::heroes::level_one_stats;
use sonetto_core::heroes::lowest_level_row;
use sonetto_core::heroes::lowest_rank;
use sonetto_core::heroes::lowest_skill_level;
use sonetto_core::heroes::lowest_talent;
use sonetto_core::heroes::next_hero_uid;
use sonetto_core::heroes::rarity_column;
use sonetto_core::heroes::starting_passive_skills;
use sonetto_core::heroes::starting_voices;
use sonetto_core::heroes::use_touch;
use sonetto_core::heroes::BaseStats;
use sonetto_core::heroes::CharacterDestiny;
use sonetto_core::heroes::CharacterLevel;
use sonetto_core::heroes::CharacterRank;
use sonetto_core::heroes::CharacterTalent;
use sonetto_core::heroes::CreateHeroError;
use sonetto_core::heroes::HeroGameData;
use sonetto_core::heroes::Skin;
use sonetto_core::heroes::SkillPassiveLevel;

fn hero(id: i32, skin_id: i32, rare: i32) -> Character {
    Character {
        actor: String::new(),
        ai: 0,
        battle_tag: String::new(),
        birthday_bonus: String::new(),
        career: 0,
        character_tag: String::new(),
        desc: String::new(),
        desc2: String::new(),
        dmg_type: 0,
        duplicate_item: String::new(),
        duplicate_item2: String::new(),
        equip_rec: "1501#1502".to_string(),
        ex_skill: 0,
        first_item: String::new(),
        gender: 0,
        hero_type: 0,
        id,
        initials: String::new(),
        is_online: String::new(),
        mvskin_id: 0,
        name: String::new(),
        name_eng: String::new(),
        photo_frame_bg: 0,
        power_max: String::new(),
        rank: 0,
        rare,
        resistance: 0,
        role_birthday: String::new(),
        school: 0,
        signature: String::new(),
        skill: String::new(),
        skin_id,
        stat: 0,
        trust: 0,
        unique_skill_point: String::new(),
        use_desc: String::new(),
    }
}

fn line(hero_id: i32, voice_type: i32, audio: i32) -> CharacterVoice {
    CharacterVoice {
        addaudio: String::new(),
        audio,
        content: String::new(),
        decontent: String::new(),
        deface: String::new(),
        demotion: String::new(),
        demouth: String::new(),
        display_time: 0,
        encontent: String::new(),
        enface: String::new(),
        enmotion: String::new(),
        enmouth: String::new(),
        face: String::new(),
        frcontent: String::new(),
        frface: String::new(),
        frmotion: String::new(),
        frmouth: String::new(),
        hero_id,
        jpcontent: String::new(),
        jpface: String::new(),
        jpmotion: String::new(),
        jpmouth: String::new(),
        kocontent: String::new(),
        krface: String::new(),
        krmotion: String::new(),
        krmouth: String::new(),
        motion: String::new(),
        mouth: String::new(),
        name: String::new(),
        param: String::new(),
        param2: String::new(),
        show: 0,
        skins: String::new(),
        sort_id: 0,
        state_condition: 0,
        thaicontent: String::new(),
        thaiface: String::new(),
        thaimotion: String::new(),
        thaimouth: String::new(),
        time: String::new(),
        twcontent: String::new(),
        twface: String::new(),
        twmotion: String::new(),
        twmouth: String::new(),
        voice_type,
        unlock_condition: String::new(),
    }
}

fn level(hero_id: i32, level: i32, hp: i32) -> CharacterLevel {
    CharacterLevel {
        hero_id,
        level,
        hp,
        atk: hp + 1,
        def: hp + 2,
        mdef: hp + 3,
        technic: hp + 4,
        cri: hp + 5,
        recri: hp + 6,
        cri_dmg: hp + 7,
        cri_def: hp + 8,
        add_dmg: hp + 9,
        drop_dmg: hp + 10,
    }
}

fn passive(hero_id: i32, skill_group: i32, skill_level: i32) -> SkillPassiveLevel {
    SkillPassiveLevel { hero_id, skill_group, skill_level }
}

#[test]
fn touches_count_down_to_none() {
    assert_eq!(use_touch(None), Some(4));
    assert_eq!(use_touch(Some(5)), Some(4));
    assert_eq!(use_touch(Some(1)), Some(0));
    assert_eq!(use_touch(Some(0)), None);
    assert_eq!(use_touch(Some(-2)), None);
    assert_eq!(use_touch(Some(i32::MAX)), Some(i32::MAX - 1));
    assert_eq!(use_touch(Some(i32::MIN)), None);
}

#[test]
fn rarity_picks_the_counter() {
    assert_eq!(rarity_column(1), Some("hero_rare_nn_count"));
    assert_eq!(rarity_column(2), Some("hero_rare_n_count"));
    assert_eq!(rarity_column(3), Some("hero_rare_r_count"));
    assert_eq!(rarity_column(4), Some("hero_rare_sr_count"));
    assert_eq!(rarity_column(5), Some("hero_rare_ssr_count"));
    assert_eq!(rarity_column(0), None);
    assert_eq!(rarity_column(6), None);
    assert_eq!(rarity_column(-1), None);
}

#[test]
fn hero_uids_count_up() {
    assert_eq!(next_hero_uid(None), Some(20000001));
    assert_eq!(next_hero_uid(Some(20000001)), Some(20000002));
    assert_eq!(next_hero_uid(Some(-5)), Some(-4));
    assert_eq!(next_hero_uid(Some(i64::MAX)), None);
    assert_eq!(next_hero_uid(Some(i64::MAX - 1)), Some(i64::MAX));
}

#[test]
fn two_heroes_start_with_extra_text() {
    assert_eq!(extra_str(3123), "1003#2003");
    assert_eq!(extra_str(3124), "2#21,22|3#32,33,31");
    assert_eq!(extra_str(3125), "");
    assert_eq!(extra_str(0), "");
}

#[test]
fn first_character_of_the_id_is_found() {
    let characters = vec![hero(1, 10, 5), hero(2, 20, 4), hero(1, 30, 3), hero(3029, 1, 1), hero(9998, 1, 1)];
    assert_eq!(find_hero_character(&characters, 1).map(|c| c.skin_id), Some(10));
    assert_eq!(find_hero_character(&characters, 2).map(|c| c.skin_id), Some(20));
    assert!(find_hero_character(&characters, 3).is_none());
    assert!(find_hero_character(&characters, 3029).is_none());
    assert!(find_hero_character(&characters, 9998).is_none());
    assert!(find_hero_character(&[], 1).is_none());
}

#[test]
fn stats_come_from_the_first_lowest_level() {
    let levels = vec![level(1, 3, 300), level(2, 1, 999), level(1, 2, 200), level(1, 2, 222), level(1, 5, 500)];
    assert_eq!(lowest_level_row(&levels, 1), Some(2));
    assert_eq!(lowest_level_row(&levels, 2), Some(1));
    assert_eq!(lowest_level_row(&levels, 3), None);
    let stats = level_one_stats(&levels, 1);
    assert_eq!(
        stats,
        BaseStats {
            level: 2,
            hp: 200,
            atk: 201,
            def: 202,
            mdef: 203,
            technic: 204,
            cri: 205,
            recri: 206,
            cri_dmg: 207,
            cri_def: 208,
            add_dmg: 209,
            drop_dmg: 210,
        }
    );
    assert_eq!(
        level_one_stats(&levels, 3),
        BaseStats {
            level: 1,
            hp: 1000,
            atk: 100,
            def: 100,
            mdef: 100,
            technic: 100,
            cri: 0,
            recri: 0,
            cri_dmg: 1300,
            cri_def: 0,
            add_dmg: 0,
            drop_dmg: 0,
        }
    );
}

#[test]
fn lowest_and_highest_are_taken_among_the_heros_rows() {
    let ranks = vec![
        CharacterRank { hero_id: 1, rank: 3 },
        CharacterRank { hero_id: 2, rank: 1 },
        CharacterRank { hero_id: 1, rank: 2 },
    ];
    assert_eq!(lowest_rank(&ranks, 1), 2);
    assert_eq!(lowest_rank(&ranks, 2), 1);
    assert_eq!(lowest_rank(&ranks, 3), 1);
    assert_eq!(lowest_rank(&[CharacterRank { hero_id: 3, rank: 7 }], 3), 7);
    let skins = vec![
        Skin { id: 5, character_id: 1 },
        Skin { id: 9, character_id: 1 },
        Skin { id: 7, character_id: 1 },
        Skin { id: 99, character_id: 2 },
        Skin { id: 500, character_id: 0 },
    ];
    assert_eq!(default_skin(&skins, 1, 4), 9);
    assert_eq!(default_skin(&skins, 2, 4), 99);
    assert_eq!(default_skin(&skins, 3, 4), 4);
    assert_eq!(default_skin(&skins, 0, 4), 4);
    let talents = vec![
        CharacterTalent { hero_id: 1, talent_id: 12 },
        CharacterTalent { hero_id: 1, talent_id: 11 },
        CharacterTalent { hero_id: 2, talent_id: 1 },
    ];
    assert_eq!(lowest_talent(&talents, 1), 11);
    assert_eq!(lowest_talent(&talents, 3), 0);
}

#[test]
fn passive_skills_start_at_their_lowest_level() {
    let rows = vec![passive(1, 1, 3), passive(1, 1, 2), passive(1, 3, 5), passive(2, 9, 1), passive(1, 3, 4)];
    assert_eq!(highest_skill_group(&rows, 1), 3);
    assert_eq!(highest_skill_group(&rows, 2), 9);
    assert_eq!(highest_skill_group(&rows, 3), 0);
    assert_eq!(lowest_skill_level(&rows, 1, 1), 2);
    assert_eq!(lowest_skill_level(&rows, 1, 2), 1);
    assert_eq!(lowest_skill_level(&rows, 1, 3), 4);
    assert_eq!(starting_passive_skills(&rows, 1, 3), vec![(0, 2), (1, 1), (2, 4)]);
    assert_eq!(starting_passive_skills(&rows, 1, 0), Vec::<(i32, i32)>::new());
    assert_eq!(starting_passive_skills(&rows, 1, -4), Vec::<(i32, i32)>::new());
    assert_eq!(starting_passive_skills(&rows, 1, 1), vec![(0, 2)]);
}

#[test]
fn voices_of_type_9_and_11_are_known() {
    let voices = vec![line(1, 9, 100), line(1, 10, 101), line(2, 9, 200), line(1, 11, 102), line(1, 1, 103)];
    assert_eq!(starting_voices(&voices, 1), vec![100, 102]);
    assert_eq!(starting_voices(&voices, 2), vec![200]);
    assert_eq!(starting_voices(&voices, 3), Vec::<i32>::new());
}

#[test]
fn destiny_starts_with_the_first_stone() {
    let destinies = vec![
        CharacterDestiny { hero_id: 1, facets_id: "11#12#x#13".to_string() },
        CharacterDestiny { hero_id: 2, facets_id: "x#21".to_string() },
        CharacterDestiny { hero_id: 1, facets_id: "99".to_string() },
    ];
    let start = destiny_start(&destinies, 1, 3);
    assert_eq!((start.rank, start.level, start.stone, start.red_dot), (3, 1, 11, 6));
    assert_eq!(start.stones, vec![11, 12, 13]);
    let start = destiny_start(&destinies, 2, 1);
    assert_eq!((start.rank, start.level, start.stone, start.red_dot), (1, 1, 0, 6));
    assert_eq!(start.stones, vec![21]);
    let start = destiny_start(&destinies, 3, 5);
    assert_eq!((start.rank, start.level, start.stone, start.red_dot), (0, 0, 0, 0));
    assert!(start.stones.is_empty());
    assert_eq!(first_id_or("1501#1502", 1501), 1501);
    assert_eq!(first_id_or("", 1501), 1501);
    assert_eq!(first_id_or("77", 0), 77);
}

#[test]
fn new_hero_is_planned_from_the_game_data() {
    let characters = vec![hero(3001, 300101, 5), hero(3123, 312301, 6)];
    let levels = vec![level(3001, 2, 50), level(3001, 1, 40)];
    let ranks = vec![CharacterRank { hero_id: 3001, rank: 2 }];
    let skins = vec![Skin { id: 300102, character_id: 3001 }];
    let destinies = vec![CharacterDestiny { hero_id: 3001, facets_id: "5#6".to_string() }];
    let talents = vec![CharacterTalent { hero_id: 3001, talent_id: 8 }];
    let passive_levels = vec![passive(3001, 2, 1)];
    let voices = vec![line(3001, 11, 7)];
    let data = HeroGameData {
        characters: &characters,
        levels: &levels,
        ranks: &ranks,
        skins: &skins,
        destinies: &destinies,
        talents: &talents,
        passive_levels: &passive_levels,
        voices: &voices,
    };
    let new = create_hero(&data, Some(20000041), 1337, 3001, 1234).unwrap();
    assert_eq!(new.uid, 20000042);
    assert_eq!(new.user_id, 1337);
    assert_eq!(new.hero_id, 3001);
    assert_eq!(new.create_time, 1234);
    assert_eq!(new.stats.level, 1);
    assert_eq!(new.stats.hp, 40);
    assert_eq!(new.rank, 2);
    assert_eq!(new.skin, 300102);
    assert_eq!(new.talent, 8);
    assert_eq!((new.destiny.rank, new.destiny.level, new.destiny.stone, new.destiny.red_dot), (2, 1, 5, 6));
    assert_eq!(new.destiny.stones, vec![5, 6]);
    assert_eq!(new.extra_str, "");
    assert_eq!(new.passive_skills, vec![(0, 1), (1, 1)]);
    assert_eq!(new.voices, vec![7]);
    assert_eq!(new.item_unlocks, vec![6, 3, 7, 4]);
    assert_eq!(new.rarity, 5);

    let plain = create_hero(&data, None, 1, 3123, 0).unwrap();
    assert_eq!(plain.uid, 20000001);
    assert_eq!(plain.stats.hp, 1000);
    assert_eq!(plain.rank, 1);
    assert_eq!(plain.skin, 312301);
    assert_eq!(plain.talent, 0);
    assert_eq!(plain.destiny.red_dot, 0);
    assert_eq!(plain.extra_str, "1003#2003");
    assert!(plain.passive_skills.is_empty());
    assert!(plain.voices.is_empty());
    assert_eq!(plain.rarity, 6);
}

#[test]
fn unknown_heroes_are_not_created() {
    let characters = vec![hero(3029, 1, 5), hero(9998, 1, 5), hero(3001, 1, 5)];
    let data = HeroGameData {
        characters: &characters,
        levels: &[],
        ranks: &[],
        skins: &[],
        destinies: &[],
        talents: &[],
        passive_levels: &[],
        voices: &[],
    };
    assert_eq!(create_hero(&data, None, 1, 3029, 0).err(), Some(CreateHeroError::UnknownHero));
    assert_eq!(create_hero(&data, None, 1, 9998, 0).err(), Some(CreateHeroError::UnknownHero));
    assert_eq!(create_hero(&data, None, 1, 4000, 0).err(), Some(CreateHeroError::UnknownHero));
    assert_eq!(create_hero(&data, Some(i64::MAX), 1, 3001, 0).err(), Some(CreateHeroError::UidExhausted));
    assert_eq!(create_hero(&data, Some(i64::MAX), 1, 4000, 0).err(), Some(CreateHeroError::UidExhausted));
    assert!(create_hero(&data, None, 1, 3001, 0).is_ok());
}
