//! GBA cartridge header.
//!
//! The first 192 bytes of a ROM hold its header:
//!
//! ```text
//! Address  Bytes  Expl.
//! 0x000    4      ROM Entry Point  (32bit ARM branch opcode)
//! 0x004    156    Nintendo Logo    (compressed bitmap)
//! 0x0A0    12     Game Title       (uppercase ascii, padded with 0x00)
//! 0x0AC    4      Game Code        (uppercase ascii)
//! 0x0B0    2      Maker Code       (uppercase ascii)
//! 0x0B2    1      Fixed value      (96h)
//! 0x0B3    1      Main unit code
//! 0x0B4    1      Device type
//! 0x0B5    7      Reserved Area
//! 0x0BC    1      Software version
//! 0x0BD    1      Complement check (header checksum)
//! 0x0BE    2      Reserved Area
//! ```

use vstd::prelude::*;

verus! {

/// ROMs must have 192 bytes at a minimum.
pub const HEADER_MIN_SIZE: usize = 0xC0;

pub const CHECKSUM_OFFSET: usize = 0xBD;
pub const SOFTWARE_VERSION_OFFSET: usize = 0xBC;

/// The checksum covers `0xA0..0xBD`.
pub const CHECKSUM_START: usize = 0xA0;
pub const CHECKSUM_END: usize = 0xBD;
pub const GAME_TITLE_START: usize = 0xA0;
pub const GAME_TITLE_END: usize = 0xAC;
pub const GAME_CODE_START: usize = 0xAC;
pub const GAME_CODE_END: usize = 0xB0;
pub const MAKER_CODE_START: usize = 0xB0;
pub const MAKER_CODE_END: usize = 0xB2;

/// GBA cartridge header.
#[derive(Clone, Debug, PartialEq, Eq)]
pub struct CartridgeHeader {
    /// Game title (uppercase ASCII, padded with `0x00`), 12 bytes.
    pub game_title: Vec<u8>,
    /// Game code (uppercase ASCII), 4 bytes.
    pub game_code: Vec<u8>,
    /// Maker code (uppercase ASCII), 2 bytes.
    pub maker_code: Vec<u8>,
    /// Software version (usually `0x00`).
    pub software_version: u8,
    /// Header checksum as stored in the ROM.
    pub checksum: u8,
}

/// An error when a ROM header is incomplete.
#[derive(Clone, Copy, Debug, PartialEq, Eq, Structural)]
pub struct IncompleteHeaderError;

/// An error loading a cartridge.
#[derive(Clone, Copy, Debug, PartialEq, Eq, Structural)]
pub enum LoadError {
    /// An error parsing the cartridge header.
    HeaderError(IncompleteHeaderError),
}

/// `0` minus each byte of `s` in turn, modulo 256.
pub open spec fn negated_sum(s: Seq<u8>) -> u8
    decreases s.len(),
{
    if s.len() == 0 {
        0
    } else {
        negated_sum(s.drop_last()).wrapping_sub(s.last())
    }
}

/// The complement check of the header bytes `s` (`0xA0..0xBD`):
/// `-(sum of s) - 0x19`, modulo 256.
pub open spec fn header_checksum(s: Seq<u8>) -> u8 {
    negated_sum(s).wrapping_sub(0x19)
}


/// Compute the header checksum of `bytes`, the 29 bytes at `0xA0..0xBD`.
pub fn compute_checksum(bytes: &[u8]) -> (r: u8)
    ensures
        r == header_checksum(bytes@),
{
    let mut chk: u8 = 0;
    let mut i: usize = 0;
    while i < bytes.len()
        invariant
            i <= bytes@.len(),
            chk == negated_sum(bytes@.subrange(0, i as int)),
        decreases bytes@.len() - i,
    {
        proof {
            assert(bytes@.subrange(0, i + 1).drop_last() =~= bytes@.subrange(0, i as int));
        }
        chk = chk.wrapping_sub(bytes[i]);
        i = i + 1;
    }
    proof {
        assert(bytes@.subrange(0, i as int) =~= bytes@);
    }
    chk.wrapping_sub(0x19)
}

/// Copies `bytes[start..end]`.
fn copy_range(bytes: &[u8], start: usize, end: usize) -> (r: Vec<u8>)
    requires
        start <= end <= bytes@.len(),
    ensures
        r@ == bytes@.subrange(start as int, end as int),
{
    let mut out: Vec<u8> = Vec::new();
    let mut i: usize = start;
    while i < end
        invariant
            start <= i <= end <= bytes@.len(),
            out@ == bytes@.subrange(start as int, i as int),
        decreases end - i,
    {
        out.push(bytes[i]);
        i = i + 1;
        proof {
            assert(out@ =~= bytes@.subrange(start as int, i as int));
        }
    }
    out
}

/// `t` is the text of the NUL-padded field `s`: the bytes before its first
/// `0x00`, or all of them where it has none.
pub open spec fn is_text_of(s: Seq<u8>, t: Seq<u8>) -> bool {
    &&& t.len() <= s.len()
    &&& t == s.take(t.len() as int)
    &&& forall|i: int| 0 <= i < t.len() ==> t[i] != 0
    &&& (t.len() == s.len() || s[t.len() as int] == 0)
}

/// Returns the text of a NUL-padded ASCII field.
pub fn ascii_text(bytes: &[u8]) -> (r: Vec<u8>)
    ensures
        is_text_of(bytes@, r@),
{
    let mut out: Vec<u8> = Vec::new();
    let mut i: usize = 0;
    while i < bytes.len() && bytes[i] != 0
        invariant
            i <= bytes@.len(),
            out@ == bytes@.take(i as int),
            forall|k: int| 0 <= k < i ==> bytes@[k] != 0,
        decreases bytes@.len() - i,
    {
        out.push(bytes[i]);
        i = i + 1;
        proof {
            assert(out@ =~= bytes@.take(i as int));
        }
    }
    out
}

impl CartridgeHeader {
    /// Returns the game title without its padding.
    pub fn title(&self) -> (r: Vec<u8>)
        ensures
            is_text_of(self.game_title@, r@),
    {
        ascii_text(self.game_title.as_slice())
    }

    /// Whether `self` is the header that the ROM bytes `bytes` hold.
    pub open spec fn is_header_of(self, bytes: Seq<u8>) -> bool {
        &&& self.game_title@ == bytes.subrange(GAME_TITLE_START as int, GAME_TITLE_END as int)
        &&& self.game_code@ == bytes.subrange(GAME_CODE_START as int, GAME_CODE_END as int)
        &&& self.maker_code@ == bytes.subrange(MAKER_CODE_START as int, MAKER_CODE_END as int)
        &&& self.software_version == bytes[SOFTWARE_VERSION_OFFSET as int]
        &&& self.checksum == bytes[CHECKSUM_OFFSET as int]
    }

    /// Parse header information from the first 192 bytes of a ROM.
    ///
    /// The stored checksum is kept as it is, whether or not it matches
    /// `compute_checksum` over `0xA0..0xBD`; `has_valid_checksum` tells.
    pub fn parse(bytes: &[u8]) -> (r: Result<CartridgeHeader, IncompleteHeaderError>)
        ensures
            r is Err <==> bytes@.len() < HEADER_MIN_SIZE,
            r matches Ok(h) ==> h.is_header_of(bytes@),
    {
        if bytes.len() < HEADER_MIN_SIZE {
            return Err(IncompleteHeaderError);
        }
        let game_title = copy_range(bytes, GAME_TITLE_START, GAME_TITLE_END);
        let game_code = copy_range(bytes, GAME_CODE_START, GAME_CODE_END);
        let maker_code = copy_range(bytes, MAKER_CODE_START, MAKER_CODE_END);
        let software_version = bytes[SOFTWARE_VERSION_OFFSET];
        let checksum = bytes[CHECKSUM_OFFSET];
        Ok(CartridgeHeader { game_title, game_code, maker_code, software_version, checksum })
    }
}

/// Whether the checksum stored in the ROM bytes `bytes` (at least 192 long)
/// matches the one computed over `0xA0..0xBD`.
pub open spec fn spec_checksum_valid(bytes: Seq<u8>) -> bool {
    bytes[CHECKSUM_OFFSET as int] == header_checksum(
        bytes.subrange(CHECKSUM_START as int, CHECKSUM_END as int),
    )
}

/// Checks the stored header checksum of a ROM against the computed one.
pub fn has_valid_checksum(bytes: &[u8]) -> (r: bool)
    requires
        bytes@.len() >= HEADER_MIN_SIZE,
    ensures
        r == spec_checksum_valid(bytes@),
{
    let region = copy_range(bytes, CHECKSUM_START, CHECKSUM_END);
    bytes[CHECKSUM_OFFSET] == compute_checksum(region.as_slice())
}

/// GBA cartridge.
#[derive(Clone, Debug)]
pub struct Cartridge {
    pub header: CartridgeHeader,
    rom: Vec<u8>,
}

impl Cartridge {
    /// The ROM bytes.
    pub closed spec fn spec_rom(&self) -> Seq<u8> {
        self.rom@
    }

    /// The parsed header.
    pub closed spec fn spec_header(&self) -> CartridgeHeader {
        self.header
    }

    /// Loads a cartridge from its ROM bytes, parsing the header.
    pub fn load_from_bytes(rom: Vec<u8>) -> (r: Result<Cartridge, LoadError>)
        ensures
            r is Err <==> rom@.len() < HEADER_MIN_SIZE,
            r matches Err(e) ==> e == LoadError::HeaderError(IncompleteHeaderError),
            r matches Ok(c) ==> c.spec_header().is_header_of(rom@) && c.spec_rom() == rom@,
    {
        match CartridgeHeader::parse(rom.as_slice()) {
            Ok(header) => Ok(Cartridge { header, rom }),
            Err(e) => Err(LoadError::HeaderError(e)),
        }
    }

    /// Returns the ROM bytes.
    pub fn rom(&self) -> (r: &[u8])
        ensures
            r@ == self.spec_rom(),
    {
        self.rom.as_slice()
    }
}

} // verus!
