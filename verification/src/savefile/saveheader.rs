//! The header: region, last played slot, play counts and unlocked worlds.

use crate::savefile::bytes::{
    be16_at, be16_bytes, be32_at, be32_bytes, checksum_of_range, crc32_ieee, get_u16_be,
    get_u16_grid, lemma_be32_of_bytes, put_row, put_u16_be, put_u16_grid, put_u32_be, put_u8,
    u16_grid_bytes, u16_grid_decodes, zeroed,
};
use crate::savefile::constants::{
    ByteCoded, SaveFileRegion, FORMAT_VERSION, HEADER_CHECKSUM_AT, HEADER_COIN_BATTLE_AT,
    HEADER_FREE_MODE_AT, HEADER_LAST_SELECTED_AT, HEADER_REGION_AT, HEADER_SIZE,
    HEADER_UNLOCKED_WORLDS_AT, HEADER_VERSION_AT, MAGIC, REGION_TAG_NTSC, STAGE_COUNT,
    WORLD_COUNT,
};
use crate::savefile::error::SaveError;
use vstd::prelude::*;

verus! {

/// The part of a save file that all slots share.
#[derive(Debug, PartialEq, Eq)]
pub struct SaveHeader {
    pub region: SaveFileRegion,
    pub last_selected_index: u8,
    pub free_mode_play_count: [[u16; STAGE_COUNT]; WORLD_COUNT],
    pub coin_battle_play_count: [[u16; STAGE_COUNT]; WORLD_COUNT],
    /// One bit per world, lowest bit for the first world.
    pub extra_modes_unlocked_worlds: u16,
}

/// The byte at offset `k` of the header whose checksum field holds `crc`.
/// Bytes that belong to no field are zero.
pub open spec fn header_byte(h: SaveHeader, crc: u32, k: int) -> u8 {
    if 0 <= k < 3 {
        MAGIC[k]
    } else if k == HEADER_REGION_AT {
        h.region.byte()
    } else if k == HEADER_VERSION_AT {
        FORMAT_VERSION
    } else if k == HEADER_LAST_SELECTED_AT {
        h.last_selected_index
    } else if HEADER_FREE_MODE_AT <= k < HEADER_COIN_BATTLE_AT {
        u16_grid_bytes(h.free_mode_play_count)[k - HEADER_FREE_MODE_AT]
    } else if HEADER_COIN_BATTLE_AT <= k < HEADER_UNLOCKED_WORLDS_AT {
        u16_grid_bytes(h.coin_battle_play_count)[k - HEADER_COIN_BATTLE_AT]
    } else if HEADER_UNLOCKED_WORLDS_AT <= k < HEADER_UNLOCKED_WORLDS_AT + 2 {
        be16_bytes(h.extra_modes_unlocked_worlds)[k - HEADER_UNLOCKED_WORLDS_AT]
    } else if HEADER_CHECKSUM_AT <= k < HEADER_SIZE {
        be32_bytes(crc)[k - HEADER_CHECKSUM_AT]
    } else {
        0
    }
}

/// The header region with `crc` in its checksum field.
pub open spec fn header_image(h: SaveHeader, crc: u32) -> Seq<u8> {
    Seq::new(HEADER_SIZE as nat, |k: int| header_byte(h, crc, k))
}

/// The part of a header region that its checksum covers: all but the
/// signature with the region tag in front and the checksum field behind.
pub open spec fn header_checked_part(image: Seq<u8>) -> Seq<u8> {
    image.subrange(HEADER_VERSION_AT as int, HEADER_CHECKSUM_AT as int)
}

/// The checksum that belongs to a header.
pub open spec fn header_checksum(h: SaveHeader) -> u32 {
    crc32_ieee(header_checked_part(header_image(h, 0)))
}

/// The header region as it is written to a file.
pub open spec fn header_bytes(h: SaveHeader) -> Seq<u8> {
    header_image(h, header_checksum(h))
}

impl Clone for SaveHeader {
    fn clone(&self) -> (copy: SaveHeader)
        ensures
            copy == *self,
    {
        SaveHeader {
            region: self.region,
            last_selected_index: self.last_selected_index,
            free_mode_play_count: self.free_mode_play_count,
            coin_battle_play_count: self.coin_battle_play_count,
            extra_modes_unlocked_worlds: self.extra_modes_unlocked_worlds,
        }
    }
}

impl SaveHeader {
    /// Every field is what `bytes` holds at that field's place. The
    /// signature, the version byte and the checksum are not looked at.
    pub open spec fn is_decoding_of(self, bytes: Seq<u8>) -> bool {
        &&& self.region == SaveFileRegion::of_byte(bytes[HEADER_REGION_AT as int])
        &&& self.last_selected_index == bytes[HEADER_LAST_SELECTED_AT as int]
        &&& u16_grid_decodes(self.free_mode_play_count, bytes, HEADER_FREE_MODE_AT as int)
        &&& u16_grid_decodes(self.coin_battle_play_count, bytes, HEADER_COIN_BATTLE_AT as int)
        &&& self.extra_modes_unlocked_worlds == be16_at(bytes, HEADER_UNLOCKED_WORLDS_AT as int)
    }

    /// The header of a file that was never played.
    pub open spec fn is_blank(self) -> bool {
        &&& self.region == SaveFileRegion::NTSC
        &&& self.last_selected_index == 0
        &&& forall|w: int, s: int|
            0 <= w < WORLD_COUNT && 0 <= s < STAGE_COUNT
                ==> #[trigger] self.free_mode_play_count[w][s] == 0
        &&& forall|w: int, s: int|
            0 <= w < WORLD_COUNT && 0 <= s < STAGE_COUNT
                ==> #[trigger] self.coin_battle_play_count[w][s] == 0
        &&& self.extra_modes_unlocked_worlds == 0
    }

    /// The header of a file that was never played: NTSC, with every count
    /// at zero and no world unlocked.
    pub fn blank() -> (h: SaveHeader)
        ensures
            h.is_blank(),
    {
        SaveHeader {
            region: SaveFileRegion::NTSC,
            last_selected_index: 0,
            free_mode_play_count: [[0;STAGE_COUNT];WORLD_COUNT],
            coin_battle_play_count: [[0;STAGE_COUNT];WORLD_COUNT],
            extra_modes_unlocked_worlds: 0,
        }
    }

    /// Decodes the header at the start of `input`. An unknown region tag
    /// reads as NTSC; the only failure is a buffer shorter than a header.
    pub fn from_bytes(input: &[u8]) -> (res: Result<SaveHeader, SaveError>)
        ensures
            input.len() < HEADER_SIZE ==> res == Err::<SaveHeader, SaveError>(
                SaveError::TruncatedInput,
            ),
            input.len() >= HEADER_SIZE ==> res is Ok && res->Ok_0.is_decoding_of(input@),
    {
        if input.len() < HEADER_SIZE {
            return Err(SaveError::TruncatedInput);
        }
        let region = SaveFileRegion::from_byte(input[HEADER_REGION_AT]);
        let last_selected_index: u8 = input[HEADER_LAST_SELECTED_AT];
        let free_mode_play_count = get_u16_grid::<WORLD_COUNT, STAGE_COUNT>(
            input,
            HEADER_FREE_MODE_AT,
        );
        let coin_battle_play_count = get_u16_grid::<WORLD_COUNT, STAGE_COUNT>(
            input,
            HEADER_COIN_BATTLE_AT,
        );
        let extra_modes_unlocked_worlds: u16 = get_u16_be(input, HEADER_UNLOCKED_WORLDS_AT);
        Ok(
            SaveHeader {
                region,
                last_selected_index,
                free_mode_play_count,
                coin_battle_play_count,
                extra_modes_unlocked_worlds,
            },
        )
    }

    /// The header region with a zero checksum field.
    pub fn to_bytes_unsealed(&self) -> (out: Vec<u8>)
        ensures
            out@ == header_image(*self, 0),
    {
        let mut out = zeroed(HEADER_SIZE);
        put_row(&mut out, 0, &MAGIC);
        put_u8(&mut out, HEADER_REGION_AT, self.region.to_byte());
        put_u8(&mut out, HEADER_VERSION_AT, FORMAT_VERSION);
        put_u8(&mut out, HEADER_LAST_SELECTED_AT, self.last_selected_index);
        put_u16_grid(&mut out, HEADER_FREE_MODE_AT, &self.free_mode_play_count);
        put_u16_grid(&mut out, HEADER_COIN_BATTLE_AT, &self.coin_battle_play_count);
        put_u16_be(&mut out, HEADER_UNLOCKED_WORLDS_AT, self.extra_modes_unlocked_worlds);
        assert(out@ =~= header_image(*self, 0));
        out
    }

    /// Encodes the header region, closed by the checksum of all that lies
    /// between the region tag and the checksum field.
    pub fn to_bytes(&self) -> (out: Vec<u8>)
        ensures
            out@ == header_bytes(*self),
            out@.len() == HEADER_SIZE,
            be32_at(out@, HEADER_CHECKSUM_AT as int) == crc32_ieee(header_checked_part(out@)),
    {
        let mut out = self.to_bytes_unsealed();
        let crc: u32 = checksum_of_range(&out, HEADER_VERSION_AT, HEADER_CHECKSUM_AT);
        put_u32_be(&mut out, HEADER_CHECKSUM_AT, crc);
        proof {
            assert(out@ =~= header_bytes(*self));
            assert(header_checked_part(out@) =~= header_checked_part(header_image(*self, 0)));
            lemma_be32_of_bytes(crc);
        }
        out
    }
}

/// A blank header is the all-zero template: it holds the signature, the
/// tag of NTSC and the version byte, and every byte from there up to the
/// checksum field is zero.
pub proof fn lemma_blank_header_is_written_as_zeros(h: SaveHeader, crc: u32)
    requires
        h.is_blank(),
    ensures
        header_image(h, crc)[0] == MAGIC[0],
        header_image(h, crc)[1] == MAGIC[1],
        header_image(h, crc)[2] == MAGIC[2],
        header_image(h, crc)[HEADER_REGION_AT as int] == REGION_TAG_NTSC,
        header_image(h, crc)[HEADER_VERSION_AT as int] == FORMAT_VERSION,
        forall|k: int|
            HEADER_VERSION_AT < k < HEADER_CHECKSUM_AT ==> #[trigger] header_image(h, crc)[k] == 0,
{
    assert forall|k: int|
        HEADER_VERSION_AT < k < HEADER_CHECKSUM_AT implies #[trigger] header_image(h, crc)[k]
        == 0 by {
        assert(header_image(h, crc)[k] == header_byte(h, crc, k));
        if HEADER_FREE_MODE_AT <= k < HEADER_COIN_BATTLE_AT {
            let n = (k - HEADER_FREE_MODE_AT) / 2;
            assert(h.free_mode_play_count[n / 42][n % 42] == 0);
        } else if HEADER_COIN_BATTLE_AT <= k < HEADER_UNLOCKED_WORLDS_AT {
            let n = (k - HEADER_COIN_BATTLE_AT) / 2;
            assert(h.coin_battle_play_count[n / 42][n % 42] == 0);
        }
    }
}

} // verus!
