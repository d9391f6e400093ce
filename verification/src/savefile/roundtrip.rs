//! Encoding and decoding undo each other: the theorems that tie the
//! images of the header, of a slot and of the whole file to the values
//! they are decoded to.

use crate::savefile::bytes::{
    be16_at, be16_bytes, be32_at, be32_bytes, crc32_ieee, grid_bytes, grid_decodes,
    lemma_be16_of_bytes, lemma_be32_of_bytes, lemma_bytes_of_be16, lemma_bytes_of_be32,
    lemma_grid_place, lemma_grid_row_and_column, row_bytes, row_decodes, u16_grid_bytes,
    u16_grid_decodes, u32_grid_bytes, u32_grid_decodes,
};
use crate::savefile::constants::{
    is_canonical, ByteCoded, EnemyDirection, PlayerCharacter, PlayerPowerup, SaveFileRegion,
    StartingMushroomKind, AMBUSH_ENEMY_COUNT, HEADER_REGION_AT, HINT_MOVIE_COUNT,
    SLOT_W3_SWITCH_AT, HEADER_CHECKSUM_AT, HEADER_COIN_BATTLE_AT,
    HEADER_FREE_MODE_AT, HEADER_LAST_SELECTED_AT, HEADER_SIZE, HEADER_UNLOCKED_WORLDS_AT,
    HEADER_VERSION_AT, PLAYER_COUNT, POWERUP_COUNT, SAVE_FILE_SIZE, SAVE_SLOT_SIZE,
    SLOT_CHARACTER_AT, SLOT_CHECKSUM_AT, SLOT_COINS_AT, SLOT_COMPLETION_AT, SLOT_CONTINUES_AT,
    SLOT_COUNT, SLOT_CREDITS_SCORE_AT, SLOT_DEATH_COUNT_AT, SLOT_DEATH_COUNT_SWITCH_AT,
    SLOT_ENEMY_DIRECTION_AT, SLOT_ENEMY_POSITION_AT, SLOT_ENEMY_SUBWORLD_AT, SLOT_HINT_MOVIE_AT,
    SLOT_HOUSE_TYPE_AT, SLOT_ITEM_STOCK_AT, SLOT_LIVES_AT, SLOT_POWERUP_AT,
    SLOT_REVIVAL_COUNT_AT, SLOT_SCORE_AT, SLOT_SPAWN_FLAGS_AT, SLOT_STAGE_FLAGS_AT,
    SLOT_TOAD_RESCUE_AT, SLOT_VINE_RESHUFFLE_AT, SLOT_WORLD_UNLOCKED_AT, STAGE_COUNT,
    WORLD_COUNT,
};
use crate::savefile::saveheader::{
    header_byte, header_bytes, header_checked_part, header_checksum, header_image, SaveHeader,
};
use crate::savefile::saveslot::{
    slot_byte, slot_bytes, slot_checked_part, slot_checksum, slot_image, slot_start, within,
    SaveSlot,
};
use crate::savefile::{file_bytes, file_prefix, has_magic, is_save_file, SaveFile};
use vstd::prelude::*;

verus! {

/// A row is decoded from its own bytes, wherever they lie.
pub proof fn lemma_row_decodes_own_bytes<T: ByteCoded, const N: usize>(
    row: [T; N],
    bytes: Seq<u8>,
    at: int,
)
    requires
        0 <= at,
        at + N <= bytes.len(),
        forall|i: int| 0 <= i < N ==> bytes[at + i] == #[trigger] row_bytes(row)[i],
    ensures
        row_decodes(row, bytes, at),
{
    assert forall|i: int| 0 <= i < N implies #[trigger] row[i] == T::of_byte(bytes[at + i]) by {
        assert(bytes[at + i] == row_bytes(row)[i]);
        row[i].lemma_byte_reads_back();
    }
}

/// Two rows decoded from the same bytes are the same row.
pub proof fn lemma_row_decoding_is_unique<T: ByteCoded, const N: usize>(
    a: [T; N],
    b: [T; N],
    bytes: Seq<u8>,
    at: int,
)
    requires
        row_decodes(a, bytes, at),
        row_decodes(b, bytes, at),
    ensures
        a == b,
{
    assert forall|i: int| 0 <= i < N implies a[i] == b[i] by {
        assert(a[i] == T::of_byte(bytes[at + i]));
        assert(b[i] == T::of_byte(bytes[at + i]));
    }
    assert(a =~= b);
}

/// A grid is decoded from its own bytes, wherever they lie.
pub proof fn lemma_grid_decodes_own_bytes<T: ByteCoded, const R: usize, const C: usize>(
    grid: [[T; C]; R],
    bytes: Seq<u8>,
    at: int,
)
    requires
        0 <= at,
        at + R * C <= bytes.len(),
        forall|k: int| 0 <= k < R * C ==> bytes[at + k] == #[trigger] grid_bytes(grid)[k],
    ensures
        grid_decodes(grid, bytes, at),
{
    assert forall|i: int, j: int| 0 <= i < R && 0 <= j < C implies #[trigger] grid[i][j]
        == T::of_byte(bytes[at + i * C + j]) by {
        lemma_grid_place(i, j, R as int, C as int);
        let k = i * C + j;
        assert(bytes[at + k] == grid_bytes(grid)[k]);
        grid[i][j].lemma_byte_reads_back();
    }
}

/// Two grids decoded from the same bytes are the same grid.
pub proof fn lemma_grid_decoding_is_unique<T: ByteCoded, const R: usize, const C: usize>(
    a: [[T; C]; R],
    b: [[T; C]; R],
    bytes: Seq<u8>,
    at: int,
)
    requires
        grid_decodes(a, bytes, at),
        grid_decodes(b, bytes, at),
    ensures
        a == b,
{
    assert forall|i: int| 0 <= i < R implies a[i] == b[i] by {
        assert forall|j: int| 0 <= j < C implies a[i][j] == b[i][j] by {
            assert(a[i][j] == T::of_byte(bytes[at + i * C + j]));
            assert(b[i][j] == T::of_byte(bytes[at + i * C + j]));
        }
        assert(a[i] =~= b[i]);
    }
    assert(a =~= b);
}

/// A grid of 16-bit integers is decoded from its own bytes, wherever
/// they lie.
pub proof fn lemma_u16_grid_decodes_own_bytes<const R: usize, const C: usize>(
    grid: [[u16; C]; R],
    bytes: Seq<u8>,
    at: int,
)
    requires
        0 <= at,
        at + 2 * (R * C) <= bytes.len(),
        forall|k: int|
            0 <= k < 2 * (R * C) ==> bytes[at + k] == #[trigger] u16_grid_bytes(grid)[k],
    ensures
        u16_grid_decodes(grid, bytes, at),
{
    assert forall|i: int, j: int| 0 <= i < R && 0 <= j < C implies #[trigger] grid[i][j]
        == be16_at(bytes, at + 2 * (i * C + j)) by {
        lemma_grid_place(i, j, R as int, C as int);
        let n = i * C + j;
        assert forall|d: int| 0 <= d < 2 implies bytes[at + 2 * n + d] == be16_bytes(
            grid[i][j],
        )[d] by {
            let k = 2 * n + d;
            assert(k / 2 == n && k % 2 == d);
            assert(bytes[at + k] == u16_grid_bytes(grid)[k]);
        }
        lemma_be16_of_bytes(grid[i][j]);
    }
}

/// Two grids of 16-bit integers decoded from the same bytes are the same
/// grid.
pub proof fn lemma_u16_grid_decoding_is_unique<const R: usize, const C: usize>(
    a: [[u16; C]; R],
    b: [[u16; C]; R],
    bytes: Seq<u8>,
    at: int,
)
    requires
        u16_grid_decodes(a, bytes, at),
        u16_grid_decodes(b, bytes, at),
    ensures
        a == b,
{
    assert forall|i: int| 0 <= i < R implies a[i] == b[i] by {
        assert forall|j: int| 0 <= j < C implies a[i][j] == b[i][j] by {
            assert(a[i][j] == be16_at(bytes, at + 2 * (i * C + j)));
            assert(b[i][j] == be16_at(bytes, at + 2 * (i * C + j)));
        }
        assert(a[i] =~= b[i]);
    }
    assert(a =~= b);
}

/// A grid of 32-bit integers is decoded from its own bytes, wherever
/// they lie.
pub proof fn lemma_u32_grid_decodes_own_bytes<const R: usize, const C: usize>(
    grid: [[u32; C]; R],
    bytes: Seq<u8>,
    at: int,
)
    requires
        0 <= at,
        at + 4 * (R * C) <= bytes.len(),
        forall|k: int|
            0 <= k < 4 * (R * C) ==> bytes[at + k] == #[trigger] u32_grid_bytes(grid)[k],
    ensures
        u32_grid_decodes(grid, bytes, at),
{
    assert forall|i: int, j: int| 0 <= i < R && 0 <= j < C implies #[trigger] grid[i][j]
        == be32_at(bytes, at + 4 * (i * C + j)) by {
        lemma_grid_place(i, j, R as int, C as int);
        let n = i * C + j;
        assert forall|d: int| 0 <= d < 4 implies bytes[at + 4 * n + d] == be32_bytes(
            grid[i][j],
        )[d] by {
            let k = 4 * n + d;
            assert(k / 4 == n && k % 4 == d);
            assert(bytes[at + k] == u32_grid_bytes(grid)[k]);
        }
        lemma_be32_of_bytes(grid[i][j]);
    }
}

/// Two grids of 32-bit integers decoded from the same bytes are the same
/// grid.
pub proof fn lemma_u32_grid_decoding_is_unique<const R: usize, const C: usize>(
    a: [[u32; C]; R],
    b: [[u32; C]; R],
    bytes: Seq<u8>,
    at: int,
)
    requires
        u32_grid_decodes(a, bytes, at),
        u32_grid_decodes(b, bytes, at),
    ensures
        a == b,
{
    assert forall|i: int| 0 <= i < R implies a[i] == b[i] by {
        assert forall|j: int| 0 <= j < C implies a[i][j] == b[i][j] by {
            assert(a[i][j] == be32_at(bytes, at + 4 * (i * C + j)));
            assert(b[i][j] == be32_at(bytes, at + 4 * (i * C + j)));
        }
        assert(a[i] =~= b[i]);
    }
    assert(a =~= b);
}

/// The bytes of a decoded row are the bytes it was decoded from, at every
/// place where that byte is canonical.
pub proof fn lemma_row_bytes_of_decoded<T: ByteCoded, const N: usize>(
    row: [T; N],
    bytes: Seq<u8>,
    at: int,
)
    requires
        row_decodes(row, bytes, at),
    ensures
        forall|k: int|
            0 <= k < N && is_canonical::<T>(bytes[at + k]) ==> #[trigger] row_bytes(row)[k]
                == bytes[at + k],
{
    assert forall|k: int|
        0 <= k < N && is_canonical::<T>(bytes[at + k]) implies #[trigger] row_bytes(row)[k]
        == bytes[at + k] by {
        assert(row[k] == T::of_byte(bytes[at + k]));
    }
}

/// The bytes of a decoded grid are the bytes it was decoded from, at
/// every place where that byte is canonical.
pub proof fn lemma_grid_bytes_of_decoded<T: ByteCoded, const R: usize, const C: usize>(
    grid: [[T; C]; R],
    bytes: Seq<u8>,
    at: int,
)
    requires
        grid_decodes(grid, bytes, at),
    ensures
        forall|k: int|
            0 <= k < R * C && is_canonical::<T>(bytes[at + k]) ==> #[trigger] grid_bytes(grid)[k]
                == bytes[at + k],
{
    assert forall|k: int|
        0 <= k < R * C && is_canonical::<T>(bytes[at + k]) implies #[trigger] grid_bytes(grid)[k]
        == bytes[at + k] by {
        assert(C > 0) by (nonlinear_arith)
            requires
                0 <= k < R * C,
        ;
        lemma_grid_row_and_column(k, R as int, C as int);
        let i = k / (C as int);
        let j = k % (C as int);
        assert(grid[i][j] == T::of_byte(bytes[at + i * C + j]));
    }
}

/// The bytes of a grid of 16-bit integers are the bytes it was decoded
/// from.
pub proof fn lemma_u16_grid_bytes_of_decoded<const R: usize, const C: usize>(
    grid: [[u16; C]; R],
    bytes: Seq<u8>,
    at: int,
)
    requires
        u16_grid_decodes(grid, bytes, at),
    ensures
        forall|k: int|
            0 <= k < 2 * (R * C) ==> #[trigger] u16_grid_bytes(grid)[k] == bytes[at + k],
{
    assert forall|k: int| 0 <= k < 2 * (R * C) implies #[trigger] u16_grid_bytes(grid)[k]
        == bytes[at + k] by {
        let n = k / 2;
        assert(C > 0) by (nonlinear_arith)
            requires
                0 <= n < R * C,
        ;
        lemma_grid_row_and_column(n, R as int, C as int);
        let i = n / (C as int);
        let j = n % (C as int);
        let from = at + 2 * (i * C + j);
        assert(grid[i][j] == be16_at(bytes, from));
        lemma_bytes_of_be16(bytes[from], bytes[from + 1]);
        assert(be16_bytes(grid[i][j])[k % 2] == bytes[from + k % 2]);
    }
}

/// The bytes of a grid of 32-bit integers are the bytes it was decoded
/// from.
pub proof fn lemma_u32_grid_bytes_of_decoded<const R: usize, const C: usize>(
    grid: [[u32; C]; R],
    bytes: Seq<u8>,
    at: int,
)
    requires
        u32_grid_decodes(grid, bytes, at),
    ensures
        forall|k: int|
            0 <= k < 4 * (R * C) ==> #[trigger] u32_grid_bytes(grid)[k] == bytes[at + k],
{
    assert forall|k: int| 0 <= k < 4 * (R * C) implies #[trigger] u32_grid_bytes(grid)[k]
        == bytes[at + k] by {
        let n = k / 4;
        assert(C > 0) by (nonlinear_arith)
            requires
                0 <= n < R * C,
        ;
        lemma_grid_row_and_column(n, R as int, C as int);
        let i = n / (C as int);
        let j = n % (C as int);
        let from = at + 4 * (i * C + j);
        assert(grid[i][j] == be32_at(bytes, from));
        lemma_bytes_of_be32(bytes[from], bytes[from + 1], bytes[from + 2], bytes[from + 3]);
        assert(be32_bytes(grid[i][j])[k % 4] == bytes[from + k % 4]);
    }
}

/// A header is decoded from any buffer that opens with its image,
/// whatever the checksum field holds.
pub proof fn lemma_header_decodes_own_image(h: SaveHeader, crc: u32, bytes: Seq<u8>)
    requires
        bytes.len() >= HEADER_SIZE,
        bytes.subrange(0, HEADER_SIZE as int) == header_image(h, crc),
    ensures
        h.is_decoding_of(bytes),
{
    assert forall|k: int| 0 <= k < HEADER_SIZE implies bytes[k] == header_byte(h, crc, k) by {
        assert(bytes.subrange(0, HEADER_SIZE as int)[k] == bytes[k]);
    }
    h.region.lemma_byte_reads_back();
    lemma_u16_grid_decodes_own_bytes(h.free_mode_play_count, bytes, HEADER_FREE_MODE_AT as int);
    lemma_u16_grid_decodes_own_bytes(
        h.coin_battle_play_count,
        bytes,
        HEADER_COIN_BATTLE_AT as int,
    );
    lemma_be16_of_bytes(h.extra_modes_unlocked_worlds);
}

/// Two headers decoded from the same bytes are the same header.
pub proof fn lemma_header_decoding_is_unique(a: SaveHeader, b: SaveHeader, bytes: Seq<u8>)
    requires
        a.is_decoding_of(bytes),
        b.is_decoding_of(bytes),
    ensures
        a == b,
{
    lemma_u16_grid_decoding_is_unique(
        a.free_mode_play_count,
        b.free_mode_play_count,
        bytes,
        HEADER_FREE_MODE_AT as int,
    );
    lemma_u16_grid_decoding_is_unique(
        a.coin_battle_play_count,
        b.coin_battle_play_count,
        bytes,
        HEADER_COIN_BATTLE_AT as int,
    );
}

/// A slot is decoded from its own image, whatever the checksum field
/// holds.
pub proof fn lemma_slot_decodes_own_image(s: SaveSlot, crc: u32)
    ensures
        s.is_decoding_of(slot_image(s, crc), 0),
{
    let image = slot_image(s, crc);
    assert forall|k: int| 0 <= k < SAVE_SLOT_SIZE implies #[trigger] image[k] == slot_byte(
        s,
        crc,
        k,
    ) by {}
    s.w3_switch_on.lemma_byte_reads_back();
    lemma_be16_of_bytes(s.staff_credits_high_score);
    lemma_be32_of_bytes(s.ingame_score);
    lemma_row_decodes_own_bytes(s.item_stock, image, SLOT_ITEM_STOCK_AT as int);
    lemma_row_decodes_own_bytes(s.starting_mushroom_house_type, image, SLOT_HOUSE_TYPE_AT as int);
    lemma_row_decodes_own_bytes(s.player_continues, image, SLOT_CONTINUES_AT as int);
    lemma_row_decodes_own_bytes(s.player_coins, image, SLOT_COINS_AT as int);
    lemma_row_decodes_own_bytes(s.player_lives, image, SLOT_LIVES_AT as int);
    lemma_row_decodes_own_bytes(s.player_spawn_flags, image, SLOT_SPAWN_FLAGS_AT as int);
    lemma_row_decodes_own_bytes(s.player_character, image, SLOT_CHARACTER_AT as int);
    lemma_row_decodes_own_bytes(s.player_powerup, image, SLOT_POWERUP_AT as int);
    lemma_row_decodes_own_bytes(s.world_unlocked, image, SLOT_WORLD_UNLOCKED_AT as int);
    lemma_row_decodes_own_bytes(s.hint_movie_bought, image, SLOT_HINT_MOVIE_AT as int);
    lemma_row_decodes_own_bytes(s.toad_rescue_level, image, SLOT_TOAD_RESCUE_AT as int);
    lemma_grid_decodes_own_bytes(s.enemy_revival_count, image, SLOT_REVIVAL_COUNT_AT as int);
    lemma_grid_decodes_own_bytes(s.enemy_subworld, image, SLOT_ENEMY_SUBWORLD_AT as int);
    lemma_grid_decodes_own_bytes(s.enemy_pos_index, image, SLOT_ENEMY_POSITION_AT as int);
    lemma_grid_decodes_own_bytes(s.enemy_walk_direction, image, SLOT_ENEMY_DIRECTION_AT as int);
    lemma_grid_decodes_own_bytes(s.player_death_count, image, SLOT_DEATH_COUNT_AT as int);
    lemma_u32_grid_decodes_own_bytes(s.stage_completion_flags, image, SLOT_STAGE_FLAGS_AT as int);
}

/// What is decoded from a record cut out of a buffer is decoded from the
/// buffer at the place where the record starts.
pub proof fn lemma_slot_decoding_shifts(s: SaveSlot, bytes: Seq<u8>, start: int)
    requires
        0 <= start,
        start + SAVE_SLOT_SIZE <= bytes.len(),
        s.is_decoding_of(bytes.subrange(start, start + SAVE_SLOT_SIZE), 0),
    ensures
        s.is_decoding_of(bytes, start),
{
    let record = bytes.subrange(start, start + SAVE_SLOT_SIZE);
    assert forall|k: int| 0 <= k < SAVE_SLOT_SIZE implies #[trigger] record[k] == bytes[start
        + k] by {}
}

/// Two slots decoded from the same place of the same bytes are the same
/// slot.
pub proof fn lemma_slot_decoding_is_unique(a: SaveSlot, b: SaveSlot, bytes: Seq<u8>, start: int)
    requires
        a.is_decoding_of(bytes, start),
        b.is_decoding_of(bytes, start),
    ensures
        a == b,
{
    lemma_row_decoding_is_unique(a.item_stock, b.item_stock, bytes, start + SLOT_ITEM_STOCK_AT);
    lemma_row_decoding_is_unique(
        a.starting_mushroom_house_type,
        b.starting_mushroom_house_type,
        bytes,
        start + SLOT_HOUSE_TYPE_AT,
    );
    lemma_row_decoding_is_unique(
        a.player_continues,
        b.player_continues,
        bytes,
        start + SLOT_CONTINUES_AT,
    );
    lemma_row_decoding_is_unique(a.player_coins, b.player_coins, bytes, start + SLOT_COINS_AT);
    lemma_row_decoding_is_unique(a.player_lives, b.player_lives, bytes, start + SLOT_LIVES_AT);
    lemma_row_decoding_is_unique(
        a.player_spawn_flags,
        b.player_spawn_flags,
        bytes,
        start + SLOT_SPAWN_FLAGS_AT,
    );
    lemma_row_decoding_is_unique(
        a.player_character,
        b.player_character,
        bytes,
        start + SLOT_CHARACTER_AT,
    );
    lemma_row_decoding_is_unique(
        a.player_powerup,
        b.player_powerup,
        bytes,
        start + SLOT_POWERUP_AT,
    );
    lemma_row_decoding_is_unique(
        a.world_unlocked,
        b.world_unlocked,
        bytes,
        start + SLOT_WORLD_UNLOCKED_AT,
    );
    lemma_row_decoding_is_unique(
        a.hint_movie_bought,
        b.hint_movie_bought,
        bytes,
        start + SLOT_HINT_MOVIE_AT,
    );
    lemma_row_decoding_is_unique(
        a.toad_rescue_level,
        b.toad_rescue_level,
        bytes,
        start + SLOT_TOAD_RESCUE_AT,
    );
    lemma_grid_decoding_is_unique(
        a.enemy_revival_count,
        b.enemy_revival_count,
        bytes,
        start + SLOT_REVIVAL_COUNT_AT,
    );
    lemma_grid_decoding_is_unique(
        a.enemy_subworld,
        b.enemy_subworld,
        bytes,
        start + SLOT_ENEMY_SUBWORLD_AT,
    );
    lemma_grid_decoding_is_unique(
        a.enemy_pos_index,
        b.enemy_pos_index,
        bytes,
        start + SLOT_ENEMY_POSITION_AT,
    );
    lemma_grid_decoding_is_unique(
        a.enemy_walk_direction,
        b.enemy_walk_direction,
        bytes,
        start + SLOT_ENEMY_DIRECTION_AT,
    );
    lemma_grid_decoding_is_unique(
        a.player_death_count,
        b.player_death_count,
        bytes,
        start + SLOT_DEATH_COUNT_AT,
    );
    lemma_u32_grid_decoding_is_unique(
        a.stage_completion_flags,
        b.stage_completion_flags,
        bytes,
        start + SLOT_STAGE_FLAGS_AT,
    );
}

/// How a written file is laid out: the header's bytes come first, and the
/// record of slot `i` fills the bytes from `slot_start(i)` up to
/// `slot_start(i + 1)`.
pub proof fn lemma_file_layout(f: SaveFile)
    ensures
        file_bytes(f).len() == SAVE_FILE_SIZE,
        file_bytes(f).subrange(0, HEADER_SIZE as int) == header_bytes(f.header),
        forall|i: int|
            0 <= i < SLOT_COUNT ==> #[trigger] file_bytes(f).subrange(
                slot_start(i),
                slot_start(i + 1),
            ) == slot_bytes(f.save_slots[i]),
{
    reveal_with_fuel(file_prefix, 7);
    assert(file_bytes(f).subrange(0, HEADER_SIZE as int) =~= header_bytes(f.header));
    assert forall|i: int| 0 <= i < SLOT_COUNT implies #[trigger] file_bytes(f).subrange(
        slot_start(i),
        slot_start(i + 1),
    ) == slot_bytes(f.save_slots[i]) by {
        assert(file_bytes(f).subrange(slot_start(i), slot_start(i + 1)) =~= slot_bytes(
            f.save_slots[i],
        ));
    }
}

/// What `to_bytes` writes is a save file that `from_bytes` accepts, and
/// the file that was written is a decoding of it.
pub proof fn theorem_file_decodes_own_bytes(f: SaveFile)
    ensures
        is_save_file(file_bytes(f)),
        file_bytes(f).len() == SAVE_FILE_SIZE,
        f.is_decoding_of(file_bytes(f)),
{
    let bytes = file_bytes(f);
    lemma_file_layout(f);
    assert(has_magic(bytes)) by {
        let head = bytes.subrange(0, HEADER_SIZE as int);
        assert(head[0] == bytes[0] && head[1] == bytes[1] && head[2] == bytes[2]);
    }
    lemma_header_decodes_own_image(f.header, header_checksum(f.header), bytes);
    assert forall|i: int| 0 <= i < SLOT_COUNT implies (#[trigger] f.save_slots[i]).is_decoding_of(
        bytes,
        slot_start(i),
    ) by {
        let slot = f.save_slots[i];
        assert(bytes.subrange(slot_start(i), slot_start(i + 1)) == slot_bytes(slot));
        lemma_slot_decodes_own_image(slot, slot_checksum(slot));
        lemma_slot_decoding_shifts(slot, bytes, slot_start(i));
    }
}

/// Decoding is a function of the bytes: two files decoded from the same
/// buffer are equal, field for field.
pub proof fn theorem_decoding_is_unique(a: SaveFile, b: SaveFile, bytes: Seq<u8>)
    requires
        a.is_decoding_of(bytes),
        b.is_decoding_of(bytes),
    ensures
        a == b,
{
    lemma_header_decoding_is_unique(a.header, b.header, bytes);
    assert forall|i: int| 0 <= i < SLOT_COUNT implies a.save_slots[i] == b.save_slots[i] by {
        lemma_slot_decoding_is_unique(a.save_slots[i], b.save_slots[i], bytes, slot_start(i));
    }
    assert(a.save_slots =~= b.save_slots);
}

/// Decoding undoes encoding: whatever is decoded from the bytes written
/// for `f` is `f` itself.
pub proof fn theorem_decode_of_encode(f: SaveFile, decoded: SaveFile)
    requires
        decoded.is_decoding_of(file_bytes(f)),
    ensures
        decoded == f,
{
    theorem_file_decodes_own_bytes(f);
    theorem_decoding_is_unique(decoded, f, file_bytes(f));
}

/// Writing a decoded file and reading it again changes nothing: every
/// modeled field comes back as it was decoded from `bytes`, and the file
/// is written a second time with exactly the same bytes.
pub proof fn theorem_reencoding_is_stable(bytes: Seq<u8>, first: SaveFile, second: SaveFile)
    requires
        is_save_file(bytes),
        first.is_decoding_of(bytes),
        second.is_decoding_of(file_bytes(first)),
    ensures
        second == first,
        second.is_decoding_of(bytes),
        file_bytes(second) == file_bytes(first),
{
    theorem_decode_of_encode(first, second);
}

/// The checksum field of a written header holds the checksum of what
/// the header's checksum covers.
pub proof fn lemma_header_checksum_is_stored(h: SaveHeader)
    ensures
        be32_at(header_bytes(h), HEADER_CHECKSUM_AT as int) == crc32_ieee(
            header_checked_part(header_bytes(h)),
        ),
{
    assert(header_checked_part(header_bytes(h)) =~= header_checked_part(header_image(h, 0)));
    lemma_be32_of_bytes(header_checksum(h));
}

/// The checksum field of a written slot record holds the checksum of
/// what lies before it in the record.
pub proof fn lemma_slot_checksum_is_stored(s: SaveSlot)
    ensures
        be32_at(slot_bytes(s), SLOT_CHECKSUM_AT as int) == crc32_ieee(
            slot_checked_part(slot_bytes(s)),
        ),
{
    assert(slot_checked_part(slot_bytes(s)) =~= slot_checked_part(slot_image(s, 0)));
    lemma_be32_of_bytes(slot_checksum(s));
}

/// In a written file every region is closed by its own checksum: the
/// header's field holds the checksum of the bytes between the region tag
/// and the field, and the last four bytes of each slot record hold the
/// checksum of the rest of that record.
pub proof fn theorem_checksums_close_every_region(f: SaveFile)
    ensures
        be32_at(file_bytes(f), HEADER_CHECKSUM_AT as int) == crc32_ieee(
            file_bytes(f).subrange(HEADER_VERSION_AT as int, HEADER_CHECKSUM_AT as int),
        ),
        forall|i: int|
            0 <= i < SLOT_COUNT ==> be32_at(file_bytes(f), slot_start(i) + SLOT_CHECKSUM_AT)
                == crc32_ieee(
                #[trigger] file_bytes(f).subrange(slot_start(i), slot_start(i) + SLOT_CHECKSUM_AT),
            ),
{
    let bytes = file_bytes(f);
    lemma_file_layout(f);
    let head = bytes.subrange(0, HEADER_SIZE as int);
    lemma_header_checksum_is_stored(f.header);
    assert(bytes.subrange(HEADER_VERSION_AT as int, HEADER_CHECKSUM_AT as int)
        =~= header_checked_part(head));
    assert(be32_at(bytes, HEADER_CHECKSUM_AT as int) == be32_at(head, HEADER_CHECKSUM_AT as int));
    assert forall|i: int| 0 <= i < SLOT_COUNT implies be32_at(
        bytes,
        slot_start(i) + SLOT_CHECKSUM_AT,
    ) == crc32_ieee(#[trigger] bytes.subrange(slot_start(i), slot_start(i) + SLOT_CHECKSUM_AT)) by {
        let record = bytes.subrange(slot_start(i), slot_start(i + 1));
        assert(record == slot_bytes(f.save_slots[i]));
        lemma_slot_checksum_is_stored(f.save_slots[i]);
        assert(bytes.subrange(slot_start(i), slot_start(i) + SLOT_CHECKSUM_AT)
            =~= slot_checked_part(record));
        assert(be32_at(bytes, slot_start(i) + SLOT_CHECKSUM_AT) == be32_at(
            record,
            SLOT_CHECKSUM_AT as int,
        ));
    }
}

/// The header keeps the byte at offset `k` of `bytes` when it is written
/// again: the byte belongs to an integer field, or it is the region tag
/// of one of the six regions.
pub open spec fn header_keeps_byte(bytes: Seq<u8>, k: int) -> bool {
    ||| k == HEADER_REGION_AT && is_canonical::<SaveFileRegion>(bytes[k])
    ||| k == HEADER_LAST_SELECTED_AT
    ||| HEADER_FREE_MODE_AT <= k < HEADER_UNLOCKED_WORLDS_AT + 2
}

/// A slot keeps the byte at offset `k` of the record that starts at
/// `start` when it is written again: the byte belongs to an integer
/// field, or it belongs to a flag or an enumeration and is canonical.
pub open spec fn slot_keeps_byte(bytes: Seq<u8>, start: int, k: int) -> bool {
    let b = bytes[start + k];
    ||| SLOT_COMPLETION_AT <= k <= SLOT_VINE_RESHUFFLE_AT
    ||| k == SLOT_W3_SWITCH_AT && is_canonical::<bool>(b)
    ||| within(k, SLOT_ITEM_STOCK_AT, POWERUP_COUNT as int)
    ||| within(k, SLOT_HOUSE_TYPE_AT, WORLD_COUNT as int) && is_canonical::<StartingMushroomKind>(b)
    ||| SLOT_CONTINUES_AT <= k < SLOT_CHARACTER_AT
    ||| within(k, SLOT_CHARACTER_AT, PLAYER_COUNT as int) && is_canonical::<PlayerCharacter>(b)
    ||| within(k, SLOT_POWERUP_AT, PLAYER_COUNT as int) && is_canonical::<PlayerPowerup>(b)
    ||| within(k, SLOT_WORLD_UNLOCKED_AT, WORLD_COUNT as int) && is_canonical::<bool>(b)
    ||| within(k, SLOT_REVIVAL_COUNT_AT, WORLD_COUNT * AMBUSH_ENEMY_COUNT)
    ||| SLOT_CREDITS_SCORE_AT <= k < SLOT_HINT_MOVIE_AT
    ||| within(k, SLOT_HINT_MOVIE_AT, HINT_MOVIE_COUNT as int) && is_canonical::<bool>(b)
    ||| SLOT_TOAD_RESCUE_AT <= k < SLOT_ENEMY_DIRECTION_AT
    ||| within(k, SLOT_ENEMY_DIRECTION_AT, WORLD_COUNT * AMBUSH_ENEMY_COUNT)
        && is_canonical::<EnemyDirection>(b)
    ||| SLOT_DEATH_COUNT_AT <= k <= SLOT_DEATH_COUNT_SWITCH_AT
}

/// The image of a decoded header holds, at every place that the header
/// keeps, the byte that the header was decoded from.
pub proof fn lemma_header_keeps_bytes(h: SaveHeader, crc: u32, bytes: Seq<u8>)
    requires
        h.is_decoding_of(bytes),
    ensures
        forall|k: int|
            header_keeps_byte(bytes, k) ==> #[trigger] header_image(h, crc)[k] == bytes[k],
{
    lemma_u16_grid_bytes_of_decoded(h.free_mode_play_count, bytes, HEADER_FREE_MODE_AT as int);
    lemma_u16_grid_bytes_of_decoded(
        h.coin_battle_play_count,
        bytes,
        HEADER_COIN_BATTLE_AT as int,
    );
    lemma_bytes_of_be16(
        bytes[HEADER_UNLOCKED_WORLDS_AT as int],
        bytes[HEADER_UNLOCKED_WORLDS_AT + 1],
    );
    assert forall|k: int| header_keeps_byte(bytes, k) implies #[trigger] header_image(h, crc)[k]
        == bytes[k] by {
        assert(header_image(h, crc)[k] == header_byte(h, crc, k));
        if HEADER_FREE_MODE_AT <= k < HEADER_COIN_BATTLE_AT {
            let n = k - HEADER_FREE_MODE_AT;
            assert(u16_grid_bytes(h.free_mode_play_count)[n] == bytes[HEADER_FREE_MODE_AT + n]);
        } else if HEADER_COIN_BATTLE_AT <= k < HEADER_UNLOCKED_WORLDS_AT {
            let n = k - HEADER_COIN_BATTLE_AT;
            assert(u16_grid_bytes(h.coin_battle_play_count)[n] == bytes[HEADER_COIN_BATTLE_AT
                + n]);
        }
    }
}

/// The image of a decoded slot holds, at every place that the slot
/// keeps, the byte that the slot was decoded from.
pub proof fn lemma_slot_keeps_bytes(s: SaveSlot, crc: u32, bytes: Seq<u8>, start: int)
    requires
        s.is_decoding_of(bytes, start),
    ensures
        forall|k: int|
            slot_keeps_byte(bytes, start, k) ==> #[trigger] slot_image(s, crc)[k] == bytes[start
                + k],
{
    lemma_row_bytes_of_decoded(s.item_stock, bytes, start + SLOT_ITEM_STOCK_AT);
    lemma_row_bytes_of_decoded(s.starting_mushroom_house_type, bytes, start + SLOT_HOUSE_TYPE_AT);
    lemma_row_bytes_of_decoded(s.player_continues, bytes, start + SLOT_CONTINUES_AT);
    lemma_row_bytes_of_decoded(s.player_coins, bytes, start + SLOT_COINS_AT);
    lemma_row_bytes_of_decoded(s.player_lives, bytes, start + SLOT_LIVES_AT);
    lemma_row_bytes_of_decoded(s.player_spawn_flags, bytes, start + SLOT_SPAWN_FLAGS_AT);
    lemma_row_bytes_of_decoded(s.player_character, bytes, start + SLOT_CHARACTER_AT);
    lemma_row_bytes_of_decoded(s.player_powerup, bytes, start + SLOT_POWERUP_AT);
    lemma_row_bytes_of_decoded(s.world_unlocked, bytes, start + SLOT_WORLD_UNLOCKED_AT);
    lemma_row_bytes_of_decoded(s.hint_movie_bought, bytes, start + SLOT_HINT_MOVIE_AT);
    lemma_row_bytes_of_decoded(s.toad_rescue_level, bytes, start + SLOT_TOAD_RESCUE_AT);
    lemma_grid_bytes_of_decoded(s.enemy_revival_count, bytes, start + SLOT_REVIVAL_COUNT_AT);
    lemma_grid_bytes_of_decoded(s.enemy_subworld, bytes, start + SLOT_ENEMY_SUBWORLD_AT);
    lemma_grid_bytes_of_decoded(s.enemy_pos_index, bytes, start + SLOT_ENEMY_POSITION_AT);
    lemma_grid_bytes_of_decoded(s.enemy_walk_direction, bytes, start + SLOT_ENEMY_DIRECTION_AT);
    lemma_grid_bytes_of_decoded(s.player_death_count, bytes, start + SLOT_DEATH_COUNT_AT);
    lemma_u32_grid_bytes_of_decoded(
        s.stage_completion_flags,
        bytes,
        start + SLOT_STAGE_FLAGS_AT,
    );
    lemma_bytes_of_be16(
        bytes[start + SLOT_CREDITS_SCORE_AT],
        bytes[start + SLOT_CREDITS_SCORE_AT + 1],
    );
    lemma_bytes_of_be32(
        bytes[start + SLOT_SCORE_AT],
        bytes[start + SLOT_SCORE_AT + 1],
        bytes[start + SLOT_SCORE_AT + 2],
        bytes[start + SLOT_SCORE_AT + 3],
    );
    assert forall|k: int| slot_keeps_byte(bytes, start, k) implies #[trigger] slot_image(s, crc)[k]
        == bytes[start + k] by {
        assert(slot_image(s, crc)[k] == slot_byte(s, crc, k));
        if within(k, SLOT_ITEM_STOCK_AT, POWERUP_COUNT as int) {
            let n = k - SLOT_ITEM_STOCK_AT;
            assert(bytes[start + k] == bytes[start + SLOT_ITEM_STOCK_AT + n]);
            assert(row_bytes(s.item_stock)[n] == bytes[start + SLOT_ITEM_STOCK_AT + n]);
        } else if within(k, SLOT_HOUSE_TYPE_AT, WORLD_COUNT as int) {
            let n = k - SLOT_HOUSE_TYPE_AT;
            assert(bytes[start + k] == bytes[start + SLOT_HOUSE_TYPE_AT + n]);
            assert(row_bytes(s.starting_mushroom_house_type)[n]
                == bytes[start + SLOT_HOUSE_TYPE_AT + n]);
        } else if within(k, SLOT_CONTINUES_AT, PLAYER_COUNT as int) {
            let n = k - SLOT_CONTINUES_AT;
            assert(bytes[start + k] == bytes[start + SLOT_CONTINUES_AT + n]);
            assert(row_bytes(s.player_continues)[n] == bytes[start + SLOT_CONTINUES_AT + n]);
        } else if within(k, SLOT_COINS_AT, PLAYER_COUNT as int) {
            let n = k - SLOT_COINS_AT;
            assert(bytes[start + k] == bytes[start + SLOT_COINS_AT + n]);
            assert(row_bytes(s.player_coins)[n] == bytes[start + SLOT_COINS_AT + n]);
        } else if within(k, SLOT_LIVES_AT, PLAYER_COUNT as int) {
            let n = k - SLOT_LIVES_AT;
            assert(bytes[start + k] == bytes[start + SLOT_LIVES_AT + n]);
            assert(row_bytes(s.player_lives)[n] == bytes[start + SLOT_LIVES_AT + n]);
        } else if within(k, SLOT_SPAWN_FLAGS_AT, PLAYER_COUNT as int) {
            let n = k - SLOT_SPAWN_FLAGS_AT;
            assert(bytes[start + k] == bytes[start + SLOT_SPAWN_FLAGS_AT + n]);
            assert(row_bytes(s.player_spawn_flags)[n] == bytes[start + SLOT_SPAWN_FLAGS_AT + n]);
        } else if within(k, SLOT_CHARACTER_AT, PLAYER_COUNT as int) {
            let n = k - SLOT_CHARACTER_AT;
            assert(bytes[start + k] == bytes[start + SLOT_CHARACTER_AT + n]);
            assert(row_bytes(s.player_character)[n] == bytes[start + SLOT_CHARACTER_AT + n]);
        } else if within(k, SLOT_POWERUP_AT, PLAYER_COUNT as int) {
            let n = k - SLOT_POWERUP_AT;
            assert(bytes[start + k] == bytes[start + SLOT_POWERUP_AT + n]);
            assert(row_bytes(s.player_powerup)[n] == bytes[start + SLOT_POWERUP_AT + n]);
        } else if within(k, SLOT_WORLD_UNLOCKED_AT, WORLD_COUNT as int) {
            let n = k - SLOT_WORLD_UNLOCKED_AT;
            assert(bytes[start + k] == bytes[start + SLOT_WORLD_UNLOCKED_AT + n]);
            assert(row_bytes(s.world_unlocked)[n] == bytes[start + SLOT_WORLD_UNLOCKED_AT + n]);
        } else if within(k, SLOT_HINT_MOVIE_AT, HINT_MOVIE_COUNT as int) {
            let n = k - SLOT_HINT_MOVIE_AT;
            assert(bytes[start + k] == bytes[start + SLOT_HINT_MOVIE_AT + n]);
            assert(row_bytes(s.hint_movie_bought)[n] == bytes[start + SLOT_HINT_MOVIE_AT + n]);
        } else if within(k, SLOT_TOAD_RESCUE_AT, WORLD_COUNT as int) {
            let n = k - SLOT_TOAD_RESCUE_AT;
            assert(bytes[start + k] == bytes[start + SLOT_TOAD_RESCUE_AT + n]);
            assert(row_bytes(s.toad_rescue_level)[n] == bytes[start + SLOT_TOAD_RESCUE_AT + n]);
        } else if within(k, SLOT_REVIVAL_COUNT_AT, WORLD_COUNT * AMBUSH_ENEMY_COUNT) {
            let n = k - SLOT_REVIVAL_COUNT_AT;
            assert(bytes[start + k] == bytes[start + SLOT_REVIVAL_COUNT_AT + n]);
            assert(grid_bytes(s.enemy_revival_count)[n]
                == bytes[start + SLOT_REVIVAL_COUNT_AT + n]);
        } else if within(k, SLOT_ENEMY_SUBWORLD_AT, WORLD_COUNT * AMBUSH_ENEMY_COUNT) {
            let n = k - SLOT_ENEMY_SUBWORLD_AT;
            assert(bytes[start + k] == bytes[start + SLOT_ENEMY_SUBWORLD_AT + n]);
            assert(grid_bytes(s.enemy_subworld)[n] == bytes[start + SLOT_ENEMY_SUBWORLD_AT + n]);
        } else if within(k, SLOT_ENEMY_POSITION_AT, WORLD_COUNT * AMBUSH_ENEMY_COUNT) {
            let n = k - SLOT_ENEMY_POSITION_AT;
            assert(bytes[start + k] == bytes[start + SLOT_ENEMY_POSITION_AT + n]);
            assert(grid_bytes(s.enemy_pos_index)[n] == bytes[start + SLOT_ENEMY_POSITION_AT + n]);
        } else if within(k, SLOT_ENEMY_DIRECTION_AT, WORLD_COUNT * AMBUSH_ENEMY_COUNT) {
            let n = k - SLOT_ENEMY_DIRECTION_AT;
            assert(bytes[start + k] == bytes[start + SLOT_ENEMY_DIRECTION_AT + n]);
            assert(grid_bytes(s.enemy_walk_direction)[n]
                == bytes[start + SLOT_ENEMY_DIRECTION_AT + n]);
        } else if within(k, SLOT_DEATH_COUNT_AT, WORLD_COUNT * STAGE_COUNT) {
            let n = k - SLOT_DEATH_COUNT_AT;
            assert(bytes[start + k] == bytes[start + SLOT_DEATH_COUNT_AT + n]);
            assert(grid_bytes(s.player_death_count)[n] == bytes[start + SLOT_DEATH_COUNT_AT + n]);
        } else if within(k, SLOT_STAGE_FLAGS_AT, 4 * (WORLD_COUNT * STAGE_COUNT)) {
            let n = k - SLOT_STAGE_FLAGS_AT;
            assert(bytes[start + k] == bytes[start + SLOT_STAGE_FLAGS_AT + n]);
            assert(u32_grid_bytes(s.stage_completion_flags)[n]
                == bytes[start + SLOT_STAGE_FLAGS_AT + n]);
        }
    }
}

/// Writing a decoded file reproduces every byte that stands for what it
/// is read as: at the place of each integer field, and of each flag or
/// enumeration whose byte is canonical, the written file holds what the
/// buffer that was decoded holds there.
pub proof fn theorem_kept_bytes_are_rewritten_as_they_were(bytes: Seq<u8>, f: SaveFile)
    requires
        is_save_file(bytes),
        f.is_decoding_of(bytes),
    ensures
        forall|k: int| header_keeps_byte(bytes, k) ==> #[trigger] file_bytes(f)[k] == bytes[k],
        forall|i: int, k: int|
            0 <= i < SLOT_COUNT && slot_keeps_byte(bytes, slot_start(i), k)
                ==> #[trigger] file_bytes(f)[slot_start(i) + k] == bytes[slot_start(i) + k],
{
    let written = file_bytes(f);
    lemma_file_layout(f);
    lemma_header_keeps_bytes(f.header, header_checksum(f.header), bytes);
    assert forall|k: int| header_keeps_byte(bytes, k) implies #[trigger] written[k]
        == bytes[k] by {
        assert(written.subrange(0, HEADER_SIZE as int)[k] == written[k]);
        assert(header_bytes(f.header)[k] == bytes[k]);
    }
    assert forall|i: int, k: int|
        0 <= i < SLOT_COUNT && slot_keeps_byte(bytes, slot_start(i), k) implies
        #[trigger] written[slot_start(i) + k] == bytes[slot_start(i) + k] by {
        let slot = f.save_slots[i];
        lemma_slot_keeps_bytes(slot, slot_checksum(slot), bytes, slot_start(i));
        let record = written.subrange(slot_start(i), slot_start(i + 1));
        assert(record == slot_bytes(slot));
        assert(record[k] == written[slot_start(i) + k]);
        assert(slot_bytes(slot)[k] == bytes[slot_start(i) + k]);
    }
}

} // verus!
