use penguin::savefile::constants::{
    COMPLETION_ALL_GOALS, COMPLETION_ALL_STAR_COINS_REGULAR, COMPLETION_ALL_STAR_COINS_SPECIAL,
    COMPLETION_FINAL_BOSS_BEATEN, COMPLETION_GAME_COMPLETED, COMPLETION_SAVE_EMPTY,
    COMPLETION_SUPER_GUIDE_TRIGGERED, SPAWN_BUBBLE, SPAWN_RESCUE_TOAD, SPAWN_STAR_POWER,
    SPAWN_YOSHI, STAGE_GOAL_NORMAL, STAGE_GOAL_SECRET, STAGE_STAR_COIN_1, STAGE_STAR_COIN_2,
    STAGE_STAR_COIN_3, STAGE_SUPER_GUIDE_NORMAL, STAGE_SUPER_GUIDE_SECRET,
};
use penguin::savefile::flags::{
    has_flag_u16, has_flag_u32, has_flag_u8, with_flag_u16, with_flag_u32, with_flag_u8,
    world_bit,
};

#[test]
fn completion_flag_values() {
    assert_eq!(COMPLETION_SAVE_EMPTY, 0x01);
    assert_eq!(COMPLETION_FINAL_BOSS_BEATEN, 0x02);
    assert_eq!(COMPLETION_ALL_GOALS, 0x04);
    assert_eq!(COMPLETION_ALL_STAR_COINS_REGULAR, 0x08);
    assert_eq!(COMPLETION_ALL_STAR_COINS_SPECIAL, 0x10);
    assert_eq!(COMPLETION_GAME_COMPLETED, 0x20);
    assert_eq!(COMPLETION_SUPER_GUIDE_TRIGGERED, 0x40);
}

#[test]
fn spawn_flag_values() {
    assert_eq!(SPAWN_STAR_POWER, 0x01);
    assert_eq!(SPAWN_YOSHI, 0x02);
    assert_eq!(SPAWN_BUBBLE, 0x04);
    assert_eq!(SPAWN_RESCUE_TOAD, 0x08);
}

#[test]
fn stage_flag_values() {
    assert_eq!(STAGE_STAR_COIN_1, 0x001);
    assert_eq!(STAGE_STAR_COIN_2, 0x002);
    assert_eq!(STAGE_STAR_COIN_3, 0x004);
    assert_eq!(STAGE_GOAL_NORMAL, 0x010);
    assert_eq!(STAGE_GOAL_SECRET, 0x020);
    assert_eq!(STAGE_SUPER_GUIDE_NORMAL, 0x080);
    assert_eq!(STAGE_SUPER_GUIDE_SECRET, 0x100);
}

#[test]
fn world_bit_is_one_shifted_by_the_world() {
    assert_eq!(world_bit(0), 0x0001);
    assert_eq!(world_bit(1), 0x0002);
    assert_eq!(world_bit(8), 0x0100);
    assert_eq!(world_bit(15), 0x8000);
    assert_eq!(world_bit(16), 0);
    assert_eq!(world_bit(usize::MAX), 0);
}

#[test]
fn flags_of_a_byte() {
    assert!(has_flag_u8(0b0000_0101, COMPLETION_ALL_GOALS));
    assert!(!has_flag_u8(0b0000_0101, COMPLETION_FINAL_BOSS_BEATEN));
    assert!(!has_flag_u8(0xFF, 0));
    assert_eq!(with_flag_u8(0b0000_0101, COMPLETION_FINAL_BOSS_BEATEN, true), 0b0000_0111);
    assert_eq!(with_flag_u8(0b0000_0101, COMPLETION_ALL_GOALS, false), 0b0000_0001);
    assert_eq!(with_flag_u8(0b0000_0101, COMPLETION_ALL_GOALS, true), 0b0000_0101);
    assert_eq!(with_flag_u8(0b0000_0101, COMPLETION_FINAL_BOSS_BEATEN, false), 0b0000_0101);
}

#[test]
fn flags_of_the_unlocked_worlds() {
    let worlds = 0x0007u16;
    assert!(has_flag_u16(worlds, world_bit(0)));
    assert!(has_flag_u16(worlds, world_bit(2)));
    assert!(!has_flag_u16(worlds, world_bit(3)));
    assert!(!has_flag_u16(worlds, world_bit(16)));
    assert_eq!(with_flag_u16(worlds, world_bit(8), true), 0x0107);
    assert_eq!(with_flag_u16(worlds, world_bit(1), false), 0x0005);
    assert_eq!(with_flag_u16(worlds, world_bit(16), true), worlds);
    assert_eq!(with_flag_u16(worlds, world_bit(16), false), worlds);
}

#[test]
fn flags_of_a_stage() {
    let stage = STAGE_STAR_COIN_1 | STAGE_GOAL_NORMAL;
    assert!(has_flag_u32(stage, STAGE_GOAL_NORMAL));
    assert!(!has_flag_u32(stage, STAGE_GOAL_SECRET));
    assert_eq!(with_flag_u32(stage, STAGE_SUPER_GUIDE_SECRET, true), 0x111);
    assert_eq!(with_flag_u32(stage, STAGE_STAR_COIN_1, false), 0x010);
    assert_eq!(with_flag_u32(0xFFFF_FFFF, STAGE_SUPER_GUIDE_NORMAL, false), 0xFFFF_FF7F);
}

#[test]
fn a_switched_flag_reads_as_set_and_leaves_the_rest() {
    for flags in 0..=255u8 {
        for bit in 0..8 {
            let mask = 1u8 << bit;
            let on = with_flag_u8(flags, mask, true);
            let off = with_flag_u8(flags, mask, false);
            assert!(has_flag_u8(on, mask));
            assert!(!has_flag_u8(off, mask));
            assert_eq!(on & !mask, flags & !mask);
            assert_eq!(off & !mask, flags & !mask);
        }
    }
}
