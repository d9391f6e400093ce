//! One slot record: the state of a single game in progress.

use crate::savefile::bytes::{
    be16_at, be16_bytes, be32_at, be32_bytes, checksum_of_range, crc32_ieee, get_grid, get_row,
    get_u16_be, get_u32_be, get_u32_grid, grid_bytes, grid_decodes, lemma_be32_of_bytes, put_grid,
    put_row, put_u16_be, put_u32_be, put_u32_grid, put_u8, row_bytes, row_decodes, u32_grid_bytes,
    u32_grid_decodes, zeroed,
};
use crate::savefile::constants::{
    ByteCoded, EnemyDirection, PlayerCharacter, PlayerPowerup, StartingMushroomKind,
    AMBUSH_ENEMY_COUNT, FORMAT_VERSION, HEADER_SIZE, HINT_MOVIE_COUNT, PLAYER_COUNT,
    POWERUP_COUNT, SAVE_SLOT_SIZE, SLOT_CHARACTER_AT, SLOT_CHECKSUM_AT, SLOT_COINS_AT,
    SLOT_COMPLETION_AT, SLOT_CONTINUES_AT, SLOT_CREDITS_SCORE_AT, SLOT_DEATH_COUNT_AT,
    SLOT_DEATH_COUNT_SWITCH_AT, SLOT_ENEMY_DIRECTION_AT, SLOT_ENEMY_POSITION_AT,
    SLOT_ENEMY_SUBWORLD_AT, SLOT_HINT_MOVIE_AT, SLOT_HOUSE_TYPE_AT, SLOT_ITEM_STOCK_AT,
    SLOT_LIVES_AT, SLOT_PATH_NODE_AT, SLOT_POWERUP_AT, SLOT_REVIVAL_COUNT_AT, SLOT_SCORE_AT,
    SLOT_SPAWN_FLAGS_AT, SLOT_STAGE_FLAGS_AT, SLOT_SUBWORLD_AT, SLOT_TOAD_RESCUE_AT,
    SLOT_VERSION_AT, SLOT_VINE_RESHUFFLE_AT, SLOT_W3_SWITCH_AT, SLOT_WORLD_AT,
    SLOT_WORLD_UNLOCKED_AT, STAGE_COUNT, WORLD_COUNT,
};
use crate::savefile::error::SaveError;
use vstd::prelude::*;

verus! {

/// The state of one game: where the players stand, what they hold and what
/// they have cleared.
#[derive(Debug, PartialEq, Eq)]
pub struct SaveSlot {
    /// Bits as named by the `COMPLETION_` constants.
    pub game_completion_flags: u8,
    pub cur_world: u8,
    pub cur_subworld: u8,
    pub cur_path_node: u8,
    pub w5_vine_reshuffle_counter: u8,
    pub w3_switch_on: bool,
    pub item_stock: [u8; POWERUP_COUNT],
    pub starting_mushroom_house_type: [StartingMushroomKind; WORLD_COUNT],
    pub player_continues: [u8; PLAYER_COUNT],
    pub player_coins: [u8; PLAYER_COUNT],
    pub player_lives: [u8; PLAYER_COUNT],
    /// Bits as named by the `SPAWN_` constants.
    pub player_spawn_flags: [u8; PLAYER_COUNT],
    pub player_character: [PlayerCharacter; PLAYER_COUNT],
    pub player_powerup: [PlayerPowerup; PLAYER_COUNT],
    pub world_unlocked: [bool; WORLD_COUNT],
    pub enemy_revival_count: [[u8; AMBUSH_ENEMY_COUNT]; WORLD_COUNT],
    pub staff_credits_high_score: u16,
    pub ingame_score: u32,
    pub stage_completion_flags: [[u32; STAGE_COUNT]; WORLD_COUNT],
    pub hint_movie_bought: [bool; HINT_MOVIE_COUNT],
    pub toad_rescue_level: [u8; WORLD_COUNT],
    pub enemy_subworld: [[u8; AMBUSH_ENEMY_COUNT]; WORLD_COUNT],
    pub enemy_pos_index: [[u8; AMBUSH_ENEMY_COUNT]; WORLD_COUNT],
    pub enemy_walk_direction: [[EnemyDirection; AMBUSH_ENEMY_COUNT]; WORLD_COUNT],
    pub player_death_count: [[u8; STAGE_COUNT]; WORLD_COUNT],
    pub player_death_count_w3_l4_switch: u8,
}

/// Offset `k` lies among the `len` bytes that start at `at`.
pub open spec fn within(k: int, at: usize, len: int) -> bool {
    at <= k < at + len
}

/// The byte at offset `k` of the record of `s` whose checksum field holds
/// `crc`. Bytes that belong to no field are zero.
pub open spec fn slot_byte(s: SaveSlot, crc: u32, k: int) -> u8 {
    if k == SLOT_VERSION_AT {
        FORMAT_VERSION
    } else if k == SLOT_COMPLETION_AT {
        s.game_completion_flags
    } else if k == SLOT_WORLD_AT {
        s.cur_world
    } else if k == SLOT_SUBWORLD_AT {
        s.cur_subworld
    } else if k == SLOT_PATH_NODE_AT {
        s.cur_path_node
    } else if k == SLOT_VINE_RESHUFFLE_AT {
        s.w5_vine_reshuffle_counter
    } else if k == SLOT_W3_SWITCH_AT {
        s.w3_switch_on.byte()
    } else if within(k, SLOT_ITEM_STOCK_AT, POWERUP_COUNT as int) {
        row_bytes(s.item_stock)[k - SLOT_ITEM_STOCK_AT]
    } else if within(k, SLOT_HOUSE_TYPE_AT, WORLD_COUNT as int) {
        row_bytes(s.starting_mushroom_house_type)[k - SLOT_HOUSE_TYPE_AT]
    } else if within(k, SLOT_CONTINUES_AT, PLAYER_COUNT as int) {
        row_bytes(s.player_continues)[k - SLOT_CONTINUES_AT]
    } else if within(k, SLOT_COINS_AT, PLAYER_COUNT as int) {
        row_bytes(s.player_coins)[k - SLOT_COINS_AT]
    } else if within(k, SLOT_LIVES_AT, PLAYER_COUNT as int) {
        row_bytes(s.player_lives)[k - SLOT_LIVES_AT]
    } else if within(k, SLOT_SPAWN_FLAGS_AT, PLAYER_COUNT as int) {
        row_bytes(s.player_spawn_flags)[k - SLOT_SPAWN_FLAGS_AT]
    } else if within(k, SLOT_CHARACTER_AT, PLAYER_COUNT as int) {
        row_bytes(s.player_character)[k - SLOT_CHARACTER_AT]
    } else if within(k, SLOT_POWERUP_AT, PLAYER_COUNT as int) {
        row_bytes(s.player_powerup)[k - SLOT_POWERUP_AT]
    } else if within(k, SLOT_WORLD_UNLOCKED_AT, WORLD_COUNT as int) {
        row_bytes(s.world_unlocked)[k - SLOT_WORLD_UNLOCKED_AT]
    } else if within(k, SLOT_REVIVAL_COUNT_AT, WORLD_COUNT * AMBUSH_ENEMY_COUNT) {
        grid_bytes(s.enemy_revival_count)[k - SLOT_REVIVAL_COUNT_AT]
    } else if within(k, SLOT_CREDITS_SCORE_AT, 2) {
        be16_bytes(s.staff_credits_high_score)[k - SLOT_CREDITS_SCORE_AT]
    } else if within(k, SLOT_SCORE_AT, 4) {
        be32_bytes(s.ingame_score)[k - SLOT_SCORE_AT]
    } else if within(k, SLOT_STAGE_FLAGS_AT, 4 * (WORLD_COUNT * STAGE_COUNT)) {
        u32_grid_bytes(s.stage_completion_flags)[k - SLOT_STAGE_FLAGS_AT]
    } else if within(k, SLOT_HINT_MOVIE_AT, HINT_MOVIE_COUNT as int) {
        row_bytes(s.hint_movie_bought)[k - SLOT_HINT_MOVIE_AT]
    } else if within(k, SLOT_TOAD_RESCUE_AT, WORLD_COUNT as int) {
        row_bytes(s.toad_rescue_level)[k - SLOT_TOAD_RESCUE_AT]
    } else if within(k, SLOT_ENEMY_SUBWORLD_AT, WORLD_COUNT * AMBUSH_ENEMY_COUNT) {
        grid_bytes(s.enemy_subworld)[k - SLOT_ENEMY_SUBWORLD_AT]
    } else if within(k, SLOT_ENEMY_POSITION_AT, WORLD_COUNT * AMBUSH_ENEMY_COUNT) {
        grid_bytes(s.enemy_pos_index)[k - SLOT_ENEMY_POSITION_AT]
    } else if within(k, SLOT_ENEMY_DIRECTION_AT, WORLD_COUNT * AMBUSH_ENEMY_COUNT) {
        grid_bytes(s.enemy_walk_direction)[k - SLOT_ENEMY_DIRECTION_AT]
    } else if within(k, SLOT_DEATH_COUNT_AT, WORLD_COUNT * STAGE_COUNT) {
        grid_bytes(s.player_death_count)[k - SLOT_DEATH_COUNT_AT]
    } else if k == SLOT_DEATH_COUNT_SWITCH_AT {
        s.player_death_count_w3_l4_switch
    } else if within(k, SLOT_CHECKSUM_AT, 4) {
        be32_bytes(crc)[k - SLOT_CHECKSUM_AT]
    } else {
        0
    }
}

/// The record of `s` with `crc` in its checksum field.
pub open spec fn slot_image(s: SaveSlot, crc: u32) -> Seq<u8> {
    Seq::new(SAVE_SLOT_SIZE as nat, |k: int| slot_byte(s, crc, k))
}

/// The part of a slot record that its checksum covers: all but the
/// checksum field at its end.
pub open spec fn slot_checked_part(image: Seq<u8>) -> Seq<u8> {
    image.subrange(0, SLOT_CHECKSUM_AT as int)
}

/// The checksum that belongs to a slot.
pub open spec fn slot_checksum(s: SaveSlot) -> u32 {
    crc32_ieee(slot_checked_part(slot_image(s, 0)))
}

/// The record of `s` as it is written to a file.
pub open spec fn slot_bytes(s: SaveSlot) -> Seq<u8> {
    slot_image(s, slot_checksum(s))
}

/// Where the record of slot `index` starts in a file.
pub open spec fn slot_start(index: int) -> int {
    HEADER_SIZE + SAVE_SLOT_SIZE * index
}

impl Clone for SaveSlot {
    fn clone(&self) -> (copy: SaveSlot)
        ensures
            copy == *self,
    {
        SaveSlot {
            game_completion_flags: self.game_completion_flags,
            cur_world: self.cur_world,
            cur_subworld: self.cur_subworld,
            cur_path_node: self.cur_path_node,
            w5_vine_reshuffle_counter: self.w5_vine_reshuffle_counter,
            w3_switch_on: self.w3_switch_on,
            item_stock: self.item_stock,
            starting_mushroom_house_type: self.starting_mushroom_house_type,
            player_continues: self.player_continues,
            player_coins: self.player_coins,
            player_lives: self.player_lives,
            player_spawn_flags: self.player_spawn_flags,
            player_character: self.player_character,
            player_powerup: self.player_powerup,
            world_unlocked: self.world_unlocked,
            enemy_revival_count: self.enemy_revival_count,
            staff_credits_high_score: self.staff_credits_high_score,
            ingame_score: self.ingame_score,
            stage_completion_flags: self.stage_completion_flags,
            hint_movie_bought: self.hint_movie_bought,
            toad_rescue_level: self.toad_rescue_level,
            enemy_subworld: self.enemy_subworld,
            enemy_pos_index: self.enemy_pos_index,
            enemy_walk_direction: self.enemy_walk_direction,
            player_death_count: self.player_death_count,
            player_death_count_w3_l4_switch: self.player_death_count_w3_l4_switch,
        }
    }
}

impl SaveSlot {
    /// Every field is what `bytes` holds at that field's place in the
    /// record that starts at `start`. The version byte and the checksum
    /// are not looked at.
    pub open spec fn is_decoding_of(self, bytes: Seq<u8>, start: int) -> bool {
        &&& self.game_completion_flags == bytes[start + SLOT_COMPLETION_AT]
        &&& self.cur_world == bytes[start + SLOT_WORLD_AT]
        &&& self.cur_subworld == bytes[start + SLOT_SUBWORLD_AT]
        &&& self.cur_path_node == bytes[start + SLOT_PATH_NODE_AT]
        &&& self.w5_vine_reshuffle_counter == bytes[start + SLOT_VINE_RESHUFFLE_AT]
        &&& self.w3_switch_on == bool::of_byte(bytes[start + SLOT_W3_SWITCH_AT])
        &&& row_decodes(self.item_stock, bytes, start + SLOT_ITEM_STOCK_AT)
        &&& row_decodes(self.starting_mushroom_house_type, bytes, start + SLOT_HOUSE_TYPE_AT)
        &&& row_decodes(self.player_continues, bytes, start + SLOT_CONTINUES_AT)
        &&& row_decodes(self.player_coins, bytes, start + SLOT_COINS_AT)
        &&& row_decodes(self.player_lives, bytes, start + SLOT_LIVES_AT)
        &&& row_decodes(self.player_spawn_flags, bytes, start + SLOT_SPAWN_FLAGS_AT)
        &&& row_decodes(self.player_character, bytes, start + SLOT_CHARACTER_AT)
        &&& row_decodes(self.player_powerup, bytes, start + SLOT_POWERUP_AT)
        &&& row_decodes(self.world_unlocked, bytes, start + SLOT_WORLD_UNLOCKED_AT)
        &&& grid_decodes(self.enemy_revival_count, bytes, start + SLOT_REVIVAL_COUNT_AT)
        &&& self.staff_credits_high_score == be16_at(bytes, start + SLOT_CREDITS_SCORE_AT)
        &&& self.ingame_score == be32_at(bytes, start + SLOT_SCORE_AT)
        &&& u32_grid_decodes(self.stage_completion_flags, bytes, start + SLOT_STAGE_FLAGS_AT)
        &&& row_decodes(self.hint_movie_bought, bytes, start + SLOT_HINT_MOVIE_AT)
        &&& row_decodes(self.toad_rescue_level, bytes, start + SLOT_TOAD_RESCUE_AT)
        &&& grid_decodes(self.enemy_subworld, bytes, start + SLOT_ENEMY_SUBWORLD_AT)
        &&& grid_decodes(self.enemy_pos_index, bytes, start + SLOT_ENEMY_POSITION_AT)
        &&& grid_decodes(self.enemy_walk_direction, bytes, start + SLOT_ENEMY_DIRECTION_AT)
        &&& grid_decodes(self.player_death_count, bytes, start + SLOT_DEATH_COUNT_AT)
        &&& self.player_death_count_w3_l4_switch == bytes[start + SLOT_DEATH_COUNT_SWITCH_AT]
    }

    /// A slot in which nothing has happened yet: every number is zero,
    /// every flag is off and every enumeration has its default, so that
    /// every field of its record is written as zeros.
    pub open spec fn is_blank(self) -> bool {
        &&& self.game_completion_flags == 0
        &&& self.cur_world == 0
        &&& self.cur_subworld == 0
        &&& self.cur_path_node == 0
        &&& self.w5_vine_reshuffle_counter == 0
        &&& !self.w3_switch_on
        &&& forall|i: int| 0 <= i < POWERUP_COUNT ==> #[trigger] self.item_stock[i] == 0
        &&& forall|w: int|
            0 <= w < WORLD_COUNT ==> #[trigger] self.starting_mushroom_house_type[w]
                == StartingMushroomKind::NoHouse
        &&& forall|p: int| 0 <= p < PLAYER_COUNT ==> #[trigger] self.player_continues[p] == 0
        &&& forall|p: int| 0 <= p < PLAYER_COUNT ==> #[trigger] self.player_coins[p] == 0
        &&& forall|p: int| 0 <= p < PLAYER_COUNT ==> #[trigger] self.player_lives[p] == 0
        &&& forall|p: int| 0 <= p < PLAYER_COUNT ==> #[trigger] self.player_spawn_flags[p] == 0
        &&& forall|p: int|
            0 <= p < PLAYER_COUNT ==> #[trigger] self.player_character[p] == PlayerCharacter::Mario
        &&& forall|p: int|
            0 <= p < PLAYER_COUNT ==> #[trigger] self.player_powerup[p] == PlayerPowerup::NoPowerup
        &&& forall|w: int| 0 <= w < WORLD_COUNT ==> !#[trigger] self.world_unlocked[w]
        &&& forall|w: int, e: int|
            0 <= w < WORLD_COUNT && 0 <= e < AMBUSH_ENEMY_COUNT
                ==> #[trigger] self.enemy_revival_count[w][e] == 0
        &&& self.staff_credits_high_score == 0
        &&& self.ingame_score == 0
        &&& forall|w: int, s: int|
            0 <= w < WORLD_COUNT && 0 <= s < STAGE_COUNT
                ==> #[trigger] self.stage_completion_flags[w][s] == 0
        &&& forall|m: int| 0 <= m < HINT_MOVIE_COUNT ==> !#[trigger] self.hint_movie_bought[m]
        &&& forall|w: int| 0 <= w < WORLD_COUNT ==> #[trigger] self.toad_rescue_level[w] == 0
        &&& forall|w: int, e: int|
            0 <= w < WORLD_COUNT && 0 <= e < AMBUSH_ENEMY_COUNT
                ==> #[trigger] self.enemy_subworld[w][e] == 0
        &&& forall|w: int, e: int|
            0 <= w < WORLD_COUNT && 0 <= e < AMBUSH_ENEMY_COUNT
                ==> #[trigger] self.enemy_pos_index[w][e] == 0
        &&& forall|w: int, e: int|
            0 <= w < WORLD_COUNT && 0 <= e < AMBUSH_ENEMY_COUNT
                ==> #[trigger] self.enemy_walk_direction[w][e] == EnemyDirection::ToNextNode
        &&& forall|w: int, s: int|
            0 <= w < WORLD_COUNT && 0 <= s < STAGE_COUNT
                ==> #[trigger] self.player_death_count[w][s] == 0
        &&& self.player_death_count_w3_l4_switch == 0
    }

    /// A slot in which nothing has happened yet.
    pub fn blank() -> (s: SaveSlot)
        ensures
            s.is_blank(),
    {
        SaveSlot {
            game_completion_flags: 0,
            cur_world: 0,
            cur_subworld: 0,
            cur_path_node: 0,
            w5_vine_reshuffle_counter: 0,
            w3_switch_on: false,
            item_stock: [0;POWERUP_COUNT],
            starting_mushroom_house_type: [StartingMushroomKind::NoHouse;WORLD_COUNT],
            player_continues: [0;PLAYER_COUNT],
            player_coins: [0;PLAYER_COUNT],
            player_lives: [0;PLAYER_COUNT],
            player_spawn_flags: [0;PLAYER_COUNT],
            player_character: [PlayerCharacter::Mario;PLAYER_COUNT],
            player_powerup: [PlayerPowerup::NoPowerup;PLAYER_COUNT],
            world_unlocked: [false;WORLD_COUNT],
            enemy_revival_count: [[0;AMBUSH_ENEMY_COUNT];WORLD_COUNT],
            staff_credits_high_score: 0,
            ingame_score: 0,
            stage_completion_flags: [[0;STAGE_COUNT];WORLD_COUNT],
            hint_movie_bought: [false;HINT_MOVIE_COUNT],
            toad_rescue_level: [0;WORLD_COUNT],
            enemy_subworld: [[0;AMBUSH_ENEMY_COUNT];WORLD_COUNT],
            enemy_pos_index: [[0;AMBUSH_ENEMY_COUNT];WORLD_COUNT],
            enemy_walk_direction: [[EnemyDirection::ToNextNode;AMBUSH_ENEMY_COUNT];WORLD_COUNT],
            player_death_count: [[0;STAGE_COUNT];WORLD_COUNT],
            player_death_count_w3_l4_switch: 0,
        }
    }

    /// Decodes the record of slot `index` from a whole file. A byte that
    /// names no variant of an enumeration reads as that enumeration's
    /// default; the only failure is a buffer that ends before the record
    /// does.
    pub fn from_bytes(input: &[u8], index: usize) -> (res: Result<SaveSlot, SaveError>)
        ensures
            input.len() < slot_start(index + 1) ==> res == Err::<SaveSlot, SaveError>(
                SaveError::TruncatedInput,
            ),
            input.len() >= slot_start(index + 1) ==> res is Ok && res->Ok_0.is_decoding_of(
                input@,
                slot_start(index as int),
            ),
    {
        if input.len() < HEADER_SIZE || index >= (input.len() - HEADER_SIZE) / SAVE_SLOT_SIZE {
            return Err(SaveError::TruncatedInput);
        }
        let start: usize = HEADER_SIZE + SAVE_SLOT_SIZE * index;
        Ok(
            SaveSlot {
                game_completion_flags: input[start + SLOT_COMPLETION_AT],
                cur_world: input[start + SLOT_WORLD_AT],
                cur_subworld: input[start + SLOT_SUBWORLD_AT],
                cur_path_node: input[start + SLOT_PATH_NODE_AT],
                w5_vine_reshuffle_counter: input[start + SLOT_VINE_RESHUFFLE_AT],
                w3_switch_on: bool::from_byte(input[start + SLOT_W3_SWITCH_AT]),
                item_stock: get_row(input, start + SLOT_ITEM_STOCK_AT),
                starting_mushroom_house_type: get_row(input, start + SLOT_HOUSE_TYPE_AT),
                player_continues: get_row(input, start + SLOT_CONTINUES_AT),
                player_coins: get_row(input, start + SLOT_COINS_AT),
                player_lives: get_row(input, start + SLOT_LIVES_AT),
                player_spawn_flags: get_row(input, start + SLOT_SPAWN_FLAGS_AT),
                player_character: get_row(input, start + SLOT_CHARACTER_AT),
                player_powerup: get_row(input, start + SLOT_POWERUP_AT),
                world_unlocked: get_row(input, start + SLOT_WORLD_UNLOCKED_AT),
                enemy_revival_count: get_grid(input, start + SLOT_REVIVAL_COUNT_AT),
                staff_credits_high_score: get_u16_be(input, start + SLOT_CREDITS_SCORE_AT),
                ingame_score: get_u32_be(input, start + SLOT_SCORE_AT),
                stage_completion_flags: get_u32_grid(input, start + SLOT_STAGE_FLAGS_AT),
                hint_movie_bought: get_row(input, start + SLOT_HINT_MOVIE_AT),
                toad_rescue_level: get_row(input, start + SLOT_TOAD_RESCUE_AT),
                enemy_subworld: get_grid(input, start + SLOT_ENEMY_SUBWORLD_AT),
                enemy_pos_index: get_grid(input, start + SLOT_ENEMY_POSITION_AT),
                enemy_walk_direction: get_grid(input, start + SLOT_ENEMY_DIRECTION_AT),
                player_death_count: get_grid(input, start + SLOT_DEATH_COUNT_AT),
                player_death_count_w3_l4_switch: input[start + SLOT_DEATH_COUNT_SWITCH_AT],
            },
        )
    }

    /// The slot record with a zero checksum field.
    pub fn to_bytes_unsealed(&self) -> (out: Vec<u8>)
        ensures
            out@ == slot_image(*self, 0),
    {
        let mut out = zeroed(SAVE_SLOT_SIZE);
        put_u8(&mut out, SLOT_VERSION_AT, FORMAT_VERSION);
        put_u8(&mut out, SLOT_COMPLETION_AT, self.game_completion_flags);
        put_u8(&mut out, SLOT_WORLD_AT, self.cur_world);
        put_u8(&mut out, SLOT_SUBWORLD_AT, self.cur_subworld);
        put_u8(&mut out, SLOT_PATH_NODE_AT, self.cur_path_node);
        put_u8(&mut out, SLOT_VINE_RESHUFFLE_AT, self.w5_vine_reshuffle_counter);
        put_u8(&mut out, SLOT_W3_SWITCH_AT, self.w3_switch_on.to_byte());
        put_row(&mut out, SLOT_ITEM_STOCK_AT, &self.item_stock);
        put_row(&mut out, SLOT_HOUSE_TYPE_AT, &self.starting_mushroom_house_type);
        put_row(&mut out, SLOT_CONTINUES_AT, &self.player_continues);
        put_row(&mut out, SLOT_COINS_AT, &self.player_coins);
        put_row(&mut out, SLOT_LIVES_AT, &self.player_lives);
        put_row(&mut out, SLOT_SPAWN_FLAGS_AT, &self.player_spawn_flags);
        put_row(&mut out, SLOT_CHARACTER_AT, &self.player_character);
        put_row(&mut out, SLOT_POWERUP_AT, &self.player_powerup);
        put_row(&mut out, SLOT_WORLD_UNLOCKED_AT, &self.world_unlocked);
        put_grid(&mut out, SLOT_REVIVAL_COUNT_AT, &self.enemy_revival_count);
        put_u16_be(&mut out, SLOT_CREDITS_SCORE_AT, self.staff_credits_high_score);
        put_u32_be(&mut out, SLOT_SCORE_AT, self.ingame_score);
        put_u32_grid(&mut out, SLOT_STAGE_FLAGS_AT, &self.stage_completion_flags);
        put_row(&mut out, SLOT_HINT_MOVIE_AT, &self.hint_movie_bought);
        put_row(&mut out, SLOT_TOAD_RESCUE_AT, &self.toad_rescue_level);
        put_grid(&mut out, SLOT_ENEMY_SUBWORLD_AT, &self.enemy_subworld);
        put_grid(&mut out, SLOT_ENEMY_POSITION_AT, &self.enemy_pos_index);
        put_grid(&mut out, SLOT_ENEMY_DIRECTION_AT, &self.enemy_walk_direction);
        put_grid(&mut out, SLOT_DEATH_COUNT_AT, &self.player_death_count);
        put_u8(&mut out, SLOT_DEATH_COUNT_SWITCH_AT, self.player_death_count_w3_l4_switch);
        assert(out@ =~= slot_image(*self, 0));
        out
    }

    /// Encodes the slot record, closed by the checksum of all that lies
    /// before the checksum field.
    pub fn to_bytes(&self) -> (out: Vec<u8>)
        ensures
            out@ == slot_bytes(*self),
            out@.len() == SAVE_SLOT_SIZE,
            be32_at(out@, SLOT_CHECKSUM_AT as int) == crc32_ieee(slot_checked_part(out@)),
    {
        let mut out = self.to_bytes_unsealed();
        let crc: u32 = checksum_of_range(&out, 0, SLOT_CHECKSUM_AT);
        put_u32_be(&mut out, SLOT_CHECKSUM_AT, crc);
        proof {
            assert(out@ =~= slot_bytes(*self));
            assert(slot_checked_part(out@) =~= slot_checked_part(slot_image(*self, 0)));
            lemma_be32_of_bytes(crc);
        }
        out
    }
}

/// A blank slot is the all-zero template: behind the version byte, every
/// byte of its record up to the checksum field is zero.
pub proof fn lemma_blank_slot_is_written_as_zeros(s: SaveSlot, crc: u32)
    requires
        s.is_blank(),
    ensures
        slot_image(s, crc)[SLOT_VERSION_AT as int] == FORMAT_VERSION,
        forall|k: int|
            SLOT_VERSION_AT < k < SLOT_CHECKSUM_AT ==> #[trigger] slot_image(s, crc)[k] == 0,
{
    assert forall|k: int| SLOT_VERSION_AT < k < SLOT_CHECKSUM_AT implies #[trigger] slot_image(
        s,
        crc,
    )[k] == 0 by {
        assert(slot_image(s, crc)[k] == slot_byte(s, crc, k));
        if within(k, SLOT_REVIVAL_COUNT_AT, WORLD_COUNT * AMBUSH_ENEMY_COUNT) {
            let n = k - SLOT_REVIVAL_COUNT_AT;
            assert(s.enemy_revival_count[n / 4][n % 4] == 0);
        } else if within(k, SLOT_STAGE_FLAGS_AT, 4 * (WORLD_COUNT * STAGE_COUNT)) {
            let n = (k - SLOT_STAGE_FLAGS_AT) / 4;
            assert(s.stage_completion_flags[n / 42][n % 42] == 0);
        } else if within(k, SLOT_ENEMY_SUBWORLD_AT, WORLD_COUNT * AMBUSH_ENEMY_COUNT) {
            let n = k - SLOT_ENEMY_SUBWORLD_AT;
            assert(s.enemy_subworld[n / 4][n % 4] == 0);
        } else if within(k, SLOT_ENEMY_POSITION_AT, WORLD_COUNT * AMBUSH_ENEMY_COUNT) {
            let n = k - SLOT_ENEMY_POSITION_AT;
            assert(s.enemy_pos_index[n / 4][n % 4] == 0);
        } else if within(k, SLOT_ENEMY_DIRECTION_AT, WORLD_COUNT * AMBUSH_ENEMY_COUNT) {
            let n = k - SLOT_ENEMY_DIRECTION_AT;
            assert(s.enemy_walk_direction[n / 4][n % 4] == EnemyDirection::ToNextNode);
        } else if within(k, SLOT_DEATH_COUNT_AT, WORLD_COUNT * STAGE_COUNT) {
            let n = k - SLOT_DEATH_COUNT_AT;
            assert(s.player_death_count[n / 42][n % 42] == 0);
        }
    }
}

} // verus!
