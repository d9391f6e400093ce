//! Codec for the fixed-layout save file of a console platformer: a header
//! followed by six slot records, each closed by a CRC-32 checksum. Beside
//! the codec stand the names under which an editor shows slots, stages
//! and mushroom houses, and the editor's choice of theme.

pub mod labels;
pub mod savefile;
pub mod settings;
