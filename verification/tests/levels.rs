use rlr_autosplitter::split_type::{Difficulty, SplitType, LARGEST_EXP_DIFFERENCE};

const LEVELS: [SplitType; 13] = [
    SplitType::Level1,
    SplitType::Level2,
    SplitType::Level3,
    SplitType::Bot2000,
    SplitType::Level4,
    SplitType::Level5,
    SplitType::Level6,
    SplitType::Odin,
    SplitType::Level7,
    SplitType::Level8,
    SplitType::Level9,
    SplitType::Diablo,
    SplitType::CowLevel,
];

#[test]
fn raw_level_round_trips_through_the_cycle() {
    for (i, level) in LEVELS.iter().enumerate() {
        let ordinal = (i + 1) as i32;
        assert_eq!(level.raw_level(), ordinal);
        assert_eq!(SplitType::from_raw_level(ordinal), *level);
    }
}

#[test]
fn next_walks_the_cycle_in_order_and_wraps() {
    for i in 0..12 {
        assert_eq!(LEVELS[i].next(), LEVELS[i + 1]);
    }
    assert_eq!(SplitType::CowLevel.next(), SplitType::Level1);
}

#[test]
fn normal_and_boss_stages_partition_the_cycle() {
    let bosses = [
        SplitType::Bot2000,
        SplitType::Odin,
        SplitType::Diablo,
        SplitType::CowLevel,
    ];
    for level in LEVELS.iter() {
        let is_boss = bosses.contains(level);
        assert_eq!(level.is_boss_level(), is_boss);
        assert_eq!(level.is_normal_level(), !is_boss);
    }
    assert!(!SplitType::Manual.is_normal_level());
    assert!(!SplitType::PadCrossed.is_boss_level());
}

#[test]
fn standard_stage_pad_constants_follow_the_ordinal() {
    // Normal stages one through eight grant (1 + ordinal) per pad.
    assert_eq!(SplitType::Level1.standard_exp(Difficulty::Normal), 2);
    assert_eq!(SplitType::Level2.standard_exp(Difficulty::Normal), 3);
    assert_eq!(SplitType::Level3.standard_exp(Difficulty::Normal), 4);
    assert_eq!(SplitType::Level4.standard_exp(Difficulty::Normal), 6);
    assert_eq!(SplitType::Level5.standard_exp(Difficulty::Normal), 7);
    assert_eq!(SplitType::Level6.standard_exp(Difficulty::Normal), 8);
    assert_eq!(SplitType::Level7.standard_exp(Difficulty::Normal), 10);
    assert_eq!(SplitType::Level8.standard_exp(Difficulty::Normal), 11);
    assert_eq!(SplitType::Level4.standard_exp(Difficulty::Insane), 18);
}

#[test]
fn stage_nine_has_its_documented_irregularity() {
    assert_eq!(SplitType::Level9.standard_exp(Difficulty::Normal), 12);
    assert_eq!(SplitType::Level9.standard_exp(Difficulty::Hard), 24);
    assert_eq!(SplitType::Level9.standard_exp(Difficulty::Insane), 39);
}

#[test]
fn boss_kill_constants_scale_with_difficulty() {
    assert_eq!(SplitType::Bot2000.boss_exp(Difficulty::Normal), 75);
    assert_eq!(SplitType::Odin.boss_exp(Difficulty::Normal), 150);
    assert_eq!(SplitType::Diablo.boss_exp(Difficulty::Normal), 300);
    assert_eq!(SplitType::CowLevel.boss_exp(Difficulty::Normal), 100);
    assert_eq!(SplitType::Bot2000.boss_exp(Difficulty::Hard), 150);
    assert_eq!(SplitType::Odin.boss_exp(Difficulty::Insane), 450);
    assert_eq!(SplitType::Diablo.boss_exp(Difficulty::Insane), 900);
}

#[test]
fn largest_difference_is_the_final_kill_on_insane() {
    assert_eq!(LARGEST_EXP_DIFFERENCE, 900);
    assert_eq!(
        SplitType::Diablo.boss_exp(Difficulty::Insane),
        LARGEST_EXP_DIFFERENCE
    );
}

#[test]
fn cube_constants_scale_with_difficulty() {
    assert_eq!(SplitType::Bot2000.cube_exp(Difficulty::Normal), 6);
    assert_eq!(SplitType::Bot2000.cube_exp(Difficulty::Insane), 18);
    assert_eq!(SplitType::Odin.cube_exp(Difficulty::Normal), 10);
    assert_eq!(SplitType::Odin.cube_exp(Difficulty::Hard), 20);
}

#[test]
fn per_pad_exp_is_none_for_non_stage_conditions() {
    assert_eq!(SplitType::Manual.per_pad_exp(Difficulty::Normal), None);
    assert_eq!(SplitType::PadCrossed.per_pad_exp(Difficulty::Hard), None);
    assert_eq!(
        SplitType::PadsCrossed { num: 3 }.per_pad_exp(Difficulty::Insane),
        None
    );
    assert_eq!(
        SplitType::Bot2000.per_pad_exp(Difficulty::Normal),
        Some(75)
    );
    assert_eq!(SplitType::Level1.per_pad_exp(Difficulty::Hard), Some(4));
}

#[test]
fn need_difficulty_spares_only_manual_and_exp_gained() {
    assert!(!SplitType::Manual.need_difficulty());
    assert!(!SplitType::ExpGained.need_difficulty());
    assert!(SplitType::Level1.need_difficulty());
    assert!(SplitType::BossComplete.need_difficulty());
    assert!(SplitType::PadsCrossed { num: 1 }.need_difficulty());
}

#[test]
fn valid_config_checks_stage_ordinals() {
    assert!(SplitType::CompleteForLevel { raw_level: 1 }.valid_config());
    assert!(SplitType::CompleteForLevel { raw_level: 13 }.valid_config());
    assert!(!SplitType::CompleteForLevel { raw_level: 0 }.valid_config());
    assert!(!SplitType::PadCrossedForLevel { raw_level: 14 }.valid_config());
    assert!(SplitType::Manual.valid_config());
    assert!(SplitType::PadsCrossed { num: -1 }.valid_config());
}

#[test]
fn difficulty_multipliers() {
    assert_eq!(Difficulty::Normal.multiplier(), 1);
    assert_eq!(Difficulty::Hard.multiplier(), 2);
    assert_eq!(Difficulty::Insane.multiplier(), 3);
}
