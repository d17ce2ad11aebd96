//! Size codes of the two ROM sections and the text that describes them.
//!
//! A size code is one byte that counts fixed-size pages: 16 KB pages for
//! PRG-ROM, 8 KB pages for CHR-ROM. Codes from 1 to 64 are page counts;
//! every other code is reported as unknown.

use vstd::prelude::*;
use vstd::string::*;
use crate::decimal::{decimal, decimal_text};

verus! {

/// The largest size code that is read as a page count.
pub const MAX_ROM_PAGES: u8 = 64;

/// Size of one PRG-ROM page, in KB.
pub const PRG_PAGE_KB: u32 = 16;

/// Size of one CHR-ROM page, in KB.
pub const CHR_PAGE_KB: u32 = 8;

/// Whether a size code denotes a page count.
pub open spec fn is_page_count(code: u8) -> bool {
    1 <= code <= MAX_ROM_PAGES
}

/// The description of a ROM section with size code `code` and pages of
/// `page_kb` KB: the page count and the page size in decimal, or the
/// marker for an unknown size.
pub open spec fn rom_size_text(code: u8, page_kb: nat) -> Seq<char> {
    if is_page_count(code) {
        "("@ + decimal(code as nat) + "x"@ + decimal(page_kb) + "kbpages)"@
    } else {
        "(Unknown)"@
    }
}

/// Describes a ROM section from its size code and its page size.
pub fn describe_rom_size(code: u8, page_kb: u32) -> (text: String)
    ensures
        text@ == rom_size_text(code, page_kb as nat),
{
    if 1 <= code && code <= MAX_ROM_PAGES {
        let mut text = String::from_str("(");
        text.append(decimal_text(code as u32).as_str());
        text.append("x");
        text.append(decimal_text(page_kb).as_str());
        text.append("kbpages)");
        text
    } else {
        String::from_str("(Unknown)")
    }
}

/// Describes the PRG-ROM section, counted in 16 KB pages.
pub fn parse_pgr_rom_size(size: u8) -> (text: String)
    ensures
        text@ == rom_size_text(size, PRG_PAGE_KB as nat),
{
    describe_rom_size(size, PRG_PAGE_KB)
}

/// Describes the CHR-ROM section, counted in 8 KB pages.
pub fn parse_chr_rom_size(size: u8) -> (text: String)
    ensures
        text@ == rom_size_text(size, CHR_PAGE_KB as nat),
{
    describe_rom_size(size, CHR_PAGE_KB)
}

} // verus!
