//! The save file as a whole: a header and six slot records.

pub mod bytes;
pub mod constants;
pub mod error;
pub mod flags;
pub mod roundtrip;
pub mod saveheader;
pub mod saveslot;

use crate::savefile::constants::{HEADER_SIZE, MAGIC, SAVE_FILE_SIZE, SAVE_SLOT_SIZE, SLOT_COUNT};
use crate::savefile::error::SaveError;
use crate::savefile::saveheader::{header_bytes, SaveHeader};
use crate::savefile::saveslot::{slot_bytes, slot_start, SaveSlot};
use vstd::prelude::*;

verus! {

/// A decoded save file. Slots 0 to 2 are the save slots, 3 to 5 the quick
/// slots.
#[derive(Debug, PartialEq, Eq)]
pub struct SaveFile {
    pub header: SaveHeader,
    pub save_slots: [SaveSlot; 6],
}

/// `bytes` opens with the signature of a save file.
pub open spec fn has_magic(bytes: Seq<u8>) -> bool {
    &&& bytes.len() >= 3
    &&& bytes[0] == MAGIC[0]
    &&& bytes[1] == MAGIC[1]
    &&& bytes[2] == MAGIC[2]
}

/// `bytes` can be decoded: it opens with the signature and is long enough
/// to hold the header and all six slot records.
pub open spec fn is_save_file(bytes: Seq<u8>) -> bool {
    has_magic(bytes) && bytes.len() >= SAVE_FILE_SIZE
}

/// The encoded header followed by the first `n` encoded slot records.
pub open spec fn file_prefix(f: SaveFile, n: int) -> Seq<u8>
    decreases n,
{
    if n <= 0 {
        header_bytes(f.header)
    } else {
        file_prefix(f, n - 1) + slot_bytes(f.save_slots[n - 1])
    }
}

/// The whole file as it is written: the header, then the six slot
/// records in index order.
pub open spec fn file_bytes(f: SaveFile) -> Seq<u8> {
    file_prefix(f, SLOT_COUNT as int)
}

impl Clone for SaveFile {
    fn clone(&self) -> (copy: SaveFile)
        ensures
            copy == *self,
    {
        let copy = SaveFile {
            header: self.header.clone(),
            save_slots: [
                self.save_slots[0].clone(),
                self.save_slots[1].clone(),
                self.save_slots[2].clone(),
                self.save_slots[3].clone(),
                self.save_slots[4].clone(),
                self.save_slots[5].clone(),
            ],
        };
        assert(copy.save_slots =~= self.save_slots);
        copy
    }
}

impl SaveFile {
    /// The header and each of the six slots are what `bytes` holds at
    /// their places.
    pub open spec fn is_decoding_of(self, bytes: Seq<u8>) -> bool {
        &&& self.header.is_decoding_of(bytes)
        &&& forall|i: int|
            0 <= i < SLOT_COUNT ==> (#[trigger] self.save_slots[i]).is_decoding_of(
                bytes,
                slot_start(i),
            )
    }

    /// A blank header and six blank slots.
    pub open spec fn is_blank(self) -> bool {
        &&& self.header.is_blank()
        &&& forall|i: int| 0 <= i < SLOT_COUNT ==> (#[trigger] self.save_slots[i]).is_blank()
    }

    /// The file that stands in while none is loaded.
    pub fn blank() -> (f: SaveFile)
        ensures
            f.is_blank(),
            f.save_slots@.len() == 6,
    {
        SaveFile {
            header: SaveHeader::blank(),
            save_slots: [
                SaveSlot::blank(),
                SaveSlot::blank(),
                SaveSlot::blank(),
                SaveSlot::blank(),
                SaveSlot::blank(),
                SaveSlot::blank(),
            ],
        }
    }

    /// Decodes a whole file. The buffer is refused when it does not open
    /// with the signature or is too short for a header and six slot
    /// records; nothing else is checked, and what lies behind the sixth
    /// record is ignored.
    pub fn from_bytes(input: &[u8]) -> (res: Result<SaveFile, SaveError>)
        ensures
            is_save_file(input@) ==> res is Ok && res->Ok_0.is_decoding_of(input@),
            !is_save_file(input@) ==> res == Err::<SaveFile, SaveError>(SaveError::Format),
    {
        if input.len() < 3 || input[0] != MAGIC[0] || input[1] != MAGIC[1] || input[2]
            != MAGIC[2] {
            return Err(SaveError::Format);
        }
        if input.len() < SAVE_FILE_SIZE {
            return Err(SaveError::Format);
        }
        let header = SaveHeader::from_bytes(input)?;
        let save_slots = [
            SaveSlot::from_bytes(input, 0)?,
            SaveSlot::from_bytes(input, 1)?,
            SaveSlot::from_bytes(input, 2)?,
            SaveSlot::from_bytes(input, 3)?,
            SaveSlot::from_bytes(input, 4)?,
            SaveSlot::from_bytes(input, 5)?,
        ];
        Ok(SaveFile { header, save_slots })
    }

    /// Encodes the whole file, each region closed by its own checksum.
    pub fn to_bytes(&self) -> (out: Vec<u8>)
        ensures
            out@ == file_bytes(*self),
            out@.len() == SAVE_FILE_SIZE,
    {
        let mut out = self.header.to_bytes();
        let mut i: usize = 0;
        while i < SLOT_COUNT
            invariant
                i <= SLOT_COUNT,
                out@ == file_prefix(*self, i as int),
                out@.len() == HEADER_SIZE + i * SAVE_SLOT_SIZE,
            decreases SLOT_COUNT - i,
        {
            let mut record = self.save_slots[i].to_bytes();
            out.append(&mut record);
            i += 1;
        }
        out
    }
}

} // verus!
