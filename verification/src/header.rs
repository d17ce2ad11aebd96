//! The header record and its decoder.
//!
//! | Offset | Field           | Meaning                                   |
//! |--------|-----------------|-------------------------------------------|
//! | 0–3    | magic           | `4E 45 53 1A` in a valid image            |
//! | 4      | PRG-ROM units   | count of 16 KB pages                      |
//! | 5      | CHR-ROM units   | count of 8 KB pages                       |
//! | 6–10   | flags           | packed configuration bytes                |
//! | 11–15  | tail            | unused, all zero in a well-formed image   |
//!
//! Decoding fails only when fewer than sixteen bytes are supplied. A wrong
//! magic, a size code out of range or a nonzero tail byte is reported by
//! the decoded header, never rejected.

use vstd::prelude::*;
use crate::rom_size::{parse_chr_rom_size, parse_pgr_rom_size, rom_size_text, CHR_PAGE_KB, PRG_PAGE_KB};
use crate::tv::{TvStandardA, TvStandardB};

verus! {

/// Length of the header, in bytes.
pub const HEADER_LEN: usize = 16;

/// The signature that opens a valid image.
pub const MAGIC: [u8; 4] = [0x4E, 0x45, 0x53, 0x1A];

/// Flag bit that is clear when PRG-RAM is present.
pub const PRG_RAM_ABSENT_BIT: u8 = 0x10;

/// Flag bit that is set when the board is reported free of bus conflicts.
pub const NO_BUS_CONFLICTS_BIT: u8 = 0x20;

/// Why a buffer could not be decoded.
#[derive(Clone, Copy, Debug, PartialEq, Eq, Structural)]
pub enum DecodeError {
    /// The buffer holds `got` bytes, fewer than the `needed` sixteen.
    Truncated { needed: usize, got: usize },
}

/// The magic bytes of a header record.
pub open spec fn magic_of(record: Seq<u8>) -> Seq<u8> {
    record.subrange(0, 4)
}

/// The five flag bytes of a header record.
pub open spec fn flags_of(record: Seq<u8>) -> Seq<u8> {
    record.subrange(6, 11)
}

/// The five tail bytes of a header record.
pub open spec fn tail_of(record: Seq<u8>) -> Seq<u8> {
    record.subrange(11, 16)
}

/// PRG-RAM size in KB for a size code: eight times the code, and 8 KB for
/// code 0.
pub open spec fn prg_ram_kb_of(code: u8) -> nat {
    if code == 0 {
        8
    } else {
        (code * 8) as nat
    }
}

/// Whether the magic bytes of a header record are the signature.
pub open spec fn magic_valid_of(record: Seq<u8>) -> bool {
    magic_of(record) == MAGIC@
}

/// Whether every tail byte of a header record is zero.
pub open spec fn tail_valid_of(record: Seq<u8>) -> bool {
    forall|i: int| 0 <= i < 5 ==> tail_of(record)[i] == 0
}

/// A decoded header.
///
/// Its view is the sixteen-byte record it was decoded from.
#[derive(Clone, Copy, Debug)]
pub struct HeaderInfo {
    magic: [u8; 4],
    magic_valid: bool,
    prg_rom_units: u8,
    chr_rom_units: u8,
    flags: [u8; 5],
    tail: [u8; 5],
}

impl View for HeaderInfo {
    type V = Seq<u8>;

    closed spec fn view(&self) -> Seq<u8> {
        self.magic@ + seq![self.prg_rom_units, self.chr_rom_units] + self.flags@ + self.tail@
    }
}

impl HeaderInfo {
    /// The stored validity flag agrees with the stored magic.
    #[verifier::type_invariant]
    spec fn wf(self) -> bool {
        self.magic_valid == (self.magic@ == MAGIC@)
    }

    /// The header that the first sixteen bytes of `bytes` decode to.
    pub closed spec fn from_bytes(bytes: Seq<u8>) -> HeaderInfo
        recommends
            bytes.len() >= HEADER_LEN,
    {
        HeaderInfo {
            magic: [bytes[0], bytes[1], bytes[2], bytes[3]],
            magic_valid: magic_valid_of(bytes),
            prg_rom_units: bytes[4],
            chr_rom_units: bytes[5],
            flags: [bytes[6], bytes[7], bytes[8], bytes[9], bytes[10]],
            tail: [bytes[11], bytes[12], bytes[13], bytes[14], bytes[15]],
        }
    }

    /// A decoded header is the record it was decoded from.
    pub proof fn lemma_from_bytes(bytes: Seq<u8>)
        requires
            bytes.len() >= HEADER_LEN,
        ensures
            Self::from_bytes(bytes)@ == bytes.take(HEADER_LEN as int),
    {
    }

    /// The record of a header is sixteen bytes long.
    pub proof fn lemma_view_len(self)
        ensures
            self@.len() == HEADER_LEN,
    {
    }

    /// The magic bytes, as found.
    pub fn magic(&self) -> (magic: [u8; 4])
        ensures
            magic@ == magic_of(self@),
    {
        self.magic
    }

    /// The PRG-ROM size code, as found.
    pub fn prg_rom_units(&self) -> (units: u8)
        ensures
            units == self@[4],
    {
        self.prg_rom_units
    }

    /// The CHR-ROM size code, as found.
    pub fn chr_rom_units(&self) -> (units: u8)
        ensures
            units == self@[5],
    {
        self.chr_rom_units
    }

    /// The five flag bytes, as found.
    pub fn flags(&self) -> (flags: [u8; 5])
        ensures
            flags@ == flags_of(self@),
    {
        self.flags
    }

    /// The five tail bytes, as found.
    pub fn tail(&self) -> (tail: [u8; 5])
        ensures
            tail@ == tail_of(self@),
    {
        self.tail
    }

    /// Whether the magic bytes are the signature.
    pub fn is_magic_valid(&self) -> (valid: bool)
        ensures
            valid == magic_valid_of(self@),
    {
        proof {
            use_type_invariant(self);
            assert(self.magic@ =~= magic_of(self@));
        }
        self.magic_valid
    }

    /// The description of the PRG-ROM section.
    pub fn prg_rom_description(&self) -> (text: String)
        ensures
            text@ == rom_size_text(self@[4], PRG_PAGE_KB as nat),
    {
        parse_pgr_rom_size(self.prg_rom_units)
    }

    /// The description of the CHR-ROM section.
    pub fn chr_rom_description(&self) -> (text: String)
        ensures
            text@ == rom_size_text(self@[5], CHR_PAGE_KB as nat),
    {
        parse_chr_rom_size(self.chr_rom_units)
    }

    /// The PRG-RAM size in KB.
    pub fn prg_ram_kb(&self) -> (kb: u32)
        ensures
            kb == prg_ram_kb_of(flags_of(self@)[2]),
    {
        let code: u8 = self.flags[2];
        if code == 0 {
            8
        } else {
            (code as u32) * 8
        }
    }

    /// The television standard by the whole-byte encoding.
    pub fn tv_standard_a(&self) -> (standard: TvStandardA)
        ensures
            standard == TvStandardA::spec_from_code(flags_of(self@)[3]),
    {
        TvStandardA::from_code(self.flags[3])
    }

    /// The television standard by the two-bit encoding.
    pub fn tv_standard_b(&self) -> (standard: TvStandardB)
        ensures
            standard == TvStandardB::spec_from_flag(flags_of(self@)[4]),
    {
        TvStandardB::from_flag(self.flags[4])
    }

    /// Whether PRG-RAM is present: the bit that marks its absence is clear.
    pub fn prg_ram_present(&self) -> (present: bool)
        ensures
            present == (flags_of(self@)[4] & PRG_RAM_ABSENT_BIT == 0),
    {
        self.flags[4] & PRG_RAM_ABSENT_BIT == 0
    }

    /// Whether the board is reported free of bus conflicts: the bit is set.
    pub fn board_has_no_bus_conflicts(&self) -> (reported: bool)
        ensures
            reported == (flags_of(self@)[4] & NO_BUS_CONFLICTS_BIT != 0),
    {
        self.flags[4] & NO_BUS_CONFLICTS_BIT != 0
    }

    /// Whether every tail byte is zero.
    pub fn is_tail_valid(&self) -> (valid: bool)
        ensures
            valid == tail_valid_of(self@),
    {
        assert(self.tail@ =~= tail_of(self@));
        let mut valid = true;
        let mut i: usize = 0;
        while i < 5
            invariant
                i <= 5,
                valid == (forall|j: int| 0 <= j < i ==> self.tail@[j] == 0),
            decreases 5 - i,
        {
            if self.tail[i] != 0 {
                valid = false;
            }
            i += 1;
        }
        valid
    }
}

/// Whether two byte arrays of one length hold the same bytes.
fn same_bytes<const N: usize>(a: &[u8; N], b: &[u8; N]) -> (same: bool)
    ensures
        same == (*a == *b),
{
    let mut i: usize = 0;
    while i < N
        invariant
            i <= N,
            forall|j: int| 0 <= j < i ==> a@[j] == b@[j],
        decreases N - i,
    {
        if a[i] != b[i] {
            return false;
        }
        i += 1;
    }
    assert(*a =~= *b);
    true
}

impl PartialEq for HeaderInfo {
    /// Two headers are equal when all their fields are.
    fn eq(&self, other: &Self) -> (equal: bool) {
        same_bytes(&self.magic, &other.magic) && self.magic_valid == other.magic_valid
            && self.prg_rom_units == other.prg_rom_units && self.chr_rom_units
            == other.chr_rom_units && same_bytes(&self.flags, &other.flags) && same_bytes(
            &self.tail,
            &other.tail,
        )
    }
}

impl vstd::std_specs::cmp::PartialEqSpecImpl for HeaderInfo {
    open spec fn obeys_eq_spec() -> bool {
        true
    }

    open spec fn eq_spec(&self, other: &Self) -> bool {
        *self == *other
    }
}

impl Eq for HeaderInfo {}

/// What decoding `bytes` yields.
pub open spec fn decode_spec(bytes: Seq<u8>) -> Result<HeaderInfo, DecodeError> {
    if bytes.len() < HEADER_LEN {
        Err(DecodeError::Truncated { needed: HEADER_LEN, got: bytes.len() as usize })
    } else {
        Ok(HeaderInfo::from_bytes(bytes))
    }
}

/// Decodes the header at the start of `buf`.
pub fn decode(buf: &[u8]) -> (result: Result<HeaderInfo, DecodeError>)
    ensures
        result == decode_spec(buf@),
        result is Ok <==> buf@.len() >= HEADER_LEN,
        result matches Ok(header) ==> header@ == buf@.take(HEADER_LEN as int),
{
    if buf.len() < HEADER_LEN {
        return Err(DecodeError::Truncated { needed: HEADER_LEN, got: buf.len() });
    }
    let magic = [buf[0], buf[1], buf[2], buf[3]];
    let magic_valid = magic[0] == MAGIC[0] && magic[1] == MAGIC[1] && magic[2] == MAGIC[2]
        && magic[3] == MAGIC[3];
    let header = HeaderInfo {
        magic,
        magic_valid,
        prg_rom_units: buf[4],
        chr_rom_units: buf[5],
        flags: [buf[6], buf[7], buf[8], buf[9], buf[10]],
        tail: [buf[11], buf[12], buf[13], buf[14], buf[15]],
    };
    proof {
        assert(magic@ =~= magic_of(buf@));
        HeaderInfo::lemma_from_bytes(buf@);
    }
    Ok(header)
}

/// A buffer shorter than the header is refused, whatever it holds, and the
/// error reports the sixteen bytes needed and the length found.
pub proof fn lemma_decode_truncated(bytes: Seq<u8>)
    requires
        bytes.len() < HEADER_LEN,
    ensures
        decode_spec(bytes) == Err::<HeaderInfo, DecodeError>(
            DecodeError::Truncated { needed: 16, got: bytes.len() as usize },
        ),
{
}

/// A buffer of sixteen bytes or more always decodes, and the bytes past
/// the sixteenth have no part in the result: two buffers that agree on
/// their first sixteen bytes decode to the same header.
pub proof fn lemma_decode_reads_header_only(a: Seq<u8>, b: Seq<u8>)
    requires
        a.len() >= HEADER_LEN,
        b.len() >= HEADER_LEN,
        forall|i: int| 0 <= i < HEADER_LEN ==> a[i] == b[i],
    ensures
        decode_spec(a) is Ok,
        decode_spec(a) == decode_spec(b),
{
    assert(magic_of(a) =~= magic_of(b));
}

/// Decoding is a function of the bytes alone: buffers that hold the same
/// bytes decode to the same result, be it a header or the error.
pub proof fn lemma_decode_deterministic(a: Seq<u8>, b: Seq<u8>)
    requires
        a.len() == b.len(),
        forall|i: int| 0 <= i < a.len() ==> a[i] == b[i],
    ensures
        decode_spec(a) == decode_spec(b),
{
    assert(a =~= b);
}

/// The magic of a record is valid exactly when the record opens with the
/// bytes `4E 45 53 1A`.
pub proof fn lemma_magic_valid(record: Seq<u8>)
    requires
        record.len() >= 4,
    ensures
        magic_valid_of(record) <==> (record[0] == 0x4E && record[1] == 0x45 && record[2] == 0x53
            && record[3] == 0x1A),
{
    let magic = magic_of(record);
    if record[0] == 0x4E && record[1] == 0x45 && record[2] == 0x53 && record[3] == 0x1A {
        assert(magic =~= MAGIC@);
    } else {
        assert(magic[0] == record[0] && magic[1] == record[1] && magic[2] == record[2] && magic[3]
            == record[3]);
    }
}

/// The tail of a record is valid exactly when its bytes 11 to 15 are all
/// zero: one nonzero byte among them makes it invalid, and no other byte
/// of the record counts.
pub proof fn lemma_tail_valid(record: Seq<u8>)
    requires
        record.len() >= HEADER_LEN,
    ensures
        tail_valid_of(record) <==> (forall|i: int| 11 <= i < 16 ==> record[i] == 0),
{
    if tail_valid_of(record) {
        assert forall|i: int| 11 <= i < 16 implies record[i] == 0 by {
            assert(tail_of(record)[i - 11] == record[i]);
        }
    }
    if forall|i: int| 11 <= i < 16 ==> record[i] == 0 {
        assert forall|i: int| 0 <= i < 5 implies tail_of(record)[i] == 0 by {
            assert(tail_of(record)[i] == record[i + 11]);
        }
    }
}

} // verus!
