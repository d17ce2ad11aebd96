//! Decoder for the fixed 16-byte header of an iNES cartridge image.
//!
//! [`header::decode`] turns the first sixteen bytes of an image into a
//! [`header::HeaderInfo`]. Whatever the header then reports (validity of
//! the magic and of the tail, ROM and RAM sizes, television standard,
//! board flags) is a pure function of those sixteen bytes.

pub mod decimal;
pub mod rom_size;
pub mod tv;
pub mod header;

pub use header::{decode, DecodeError, HeaderInfo};
pub use rom_size::{parse_chr_rom_size, parse_pgr_rom_size};
pub use tv::{TvStandardA, TvStandardB};
