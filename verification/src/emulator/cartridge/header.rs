//! Parsing of the cartridge header at the start of a ROM image.

use vstd::prelude::*;
use vstd::string::StrSliceExecFns;
use vstd::utf8::{decode_utf8, valid_utf8};

verus! {

/// The region a game was released for, from the last character of its game code.
#[derive(Debug, Clone, Copy, PartialEq, Eq, Structural)]
pub enum Region {
    Japan,
    Europe,
    French,
    Spanish,
    Usa,
    German,
    Italian,
}

/// The kind of save memory a cartridge carries.
#[derive(Debug, Clone, Copy, PartialEq, Eq, Structural)]
pub enum CartBackupId {
    /// Either 512 or 8 KB of EEPROM
    EEProm,
    /// 32KB of SRAM
    Sram,
    /// 64KB of Flash
    Flash64,
    /// 128KB of Flash
    Flash128,
}

/// Represents the Cartridge Header for a GBA rom.
#[derive(Debug, Clone)]
pub struct CartridgeHeader {
    /// Uppercase ASCII, max `12` characters
    pub game_title: String,
    /// Uppercase ASCII, max `4` characters
    pub game_code: String,
    /// Uppercase ASCII, max `2` characters
    pub maker_code: String,
    /// (00h for current GBA models)
    pub main_unit_code: u8,
    /// (usually 00h) (bit7=DACS/debug related)
    pub device_type: u8,
    /// (usually 00h)
    pub software_version: u8,
    /// Header checksum
    pub complement_checksum: u8,
    /// The backup id of this particular cartridge
    pub backup_id: CartBackupId,
}

/// The characters that `String::from_utf8_lossy` decodes from `bytes`, where every
/// invalid sequence becomes a replacement character.
pub uninterp spec fn utf8_lossy_chars(bytes: Seq<u8>) -> Seq<char>;

/// What the first match of a regular expression captures in its first group, over a
/// byte haystack; `None` when the expression does not match or does not compile.
pub uninterp spec fn regex_first_group(pattern: Seq<char>, haystack: Seq<u8>) -> Option<Seq<u8>>;

/// Decode bytes as UTF-8, replacing invalid sequences with `U+FFFD`.
///
/// Trusted: wraps `String::from_utf8_lossy`. The contract names its result and claims that
/// valid UTF-8 is decoded as it is, and that the text has at most one character per byte:
/// every character comes from a valid sequence of one or more bytes or replaces an invalid
/// sequence of one or more bytes.
#[verifier::external_body]
fn utf8_lossy(bytes: &[u8]) -> (r: String)
    ensures
        r@ == utf8_lossy_chars(bytes@),
        valid_utf8(bytes@) ==> r@ == decode_utf8(bytes@),
        r@.len() <= bytes@.len(),
{
    String::from_utf8_lossy(bytes).into_owned()
}

/// The bytes captured by the first group of the first match of `pattern` in `haystack`.
///
/// Trusted: wraps `regex::bytes::Regex::new`, `Regex::captures` and `Captures::get`. The
/// contract only names the result as a function of the pattern and the haystack.
#[verifier::external_body]
fn regex_capture_group_1(pattern: &str, haystack: &[u8]) -> (r: Option<Vec<u8>>)
    ensures
        match r {
            Some(v) => regex_first_group(pattern@, haystack@) == Some(v@),
            None => regex_first_group(pattern@, haystack@).is_none(),
        },
{
    let re = match regex::bytes::Regex::new(pattern) {
        Ok(re) => re,
        Err(_) => return None,
    };
    match re.captures(haystack) {
        Some(cap) => match cap.get(1) {
            Some(m) => Some(m.as_bytes().to_vec()),
            None => None,
        },
        None => None,
    }
}

/// `s` without its leading and trailing NUL characters.
pub open spec fn trim_nul_chars(s: Seq<char>) -> Seq<char>
    decreases s.len(),
{
    if s.len() > 0 && s[0] == '\0' {
        trim_nul_chars(s.drop_first())
    } else if s.len() > 0 && s.last() == '\0' {
        trim_nul_chars(s.drop_last())
    } else {
        s
    }
}

/// Trimming keeps a run of the text, no longer than it, that neither starts nor ends with a
/// NUL character.
pub proof fn lemma_trim_nul_chars(s: Seq<char>)
    ensures
        trim_nul_chars(s).len() <= s.len(),
        trim_nul_chars(s).len() > 0 ==> trim_nul_chars(s)[0] != '\0' && trim_nul_chars(s).last() != '\0',
    decreases s.len(),
{
    if s.len() > 0 && s[0] == '\0' {
        lemma_trim_nul_chars(s.drop_first());
    } else if s.len() > 0 && s.last() == '\0' {
        lemma_trim_nul_chars(s.drop_last());
    }
}

proof fn lemma_trim_no_leading(s: Seq<char>)
    requires
        s.len() > 0,
        s[0] != '\0',
    ensures
        s.last() == '\0' ==> trim_nul_chars(s) == trim_nul_chars(s.drop_last()),
        s.last() != '\0' ==> trim_nul_chars(s) == s,
{
}

/// The text `s` with the NUL characters at both ends removed.
fn trim_nul_str(s: &str) -> (r: String)
    ensures
        r@ == trim_nul_chars(s@),
{
    let len = s.unicode_len();
    let mut start: usize = 0;
    assert(s@.subrange(0, len as int) =~= s@);
    while start < len && s.get_char(start) == '\0'
        invariant
            start <= len,
            len == s@.len(),
            trim_nul_chars(s@) == trim_nul_chars(s@.subrange(start as int, len as int)),
        decreases len - start,
    {
        assert(s@.subrange(start as int, len as int).drop_first() =~= s@.subrange(start + 1, len as int));
        start = start + 1;
    }
    let mut end: usize = len;
    while end > start && s.get_char(end - 1) == '\0'
        invariant
            start <= end <= len,
            len == s@.len(),
            start < len ==> s@[start as int] != '\0',
            trim_nul_chars(s@) == trim_nul_chars(s@.subrange(start as int, end as int)),
        decreases end - start,
    {
        let ghost t = s@.subrange(start as int, end as int);
        proof {
            lemma_trim_no_leading(t);
            assert(t.drop_last() =~= s@.subrange(start as int, end - 1));
        }
        end = end - 1;
    }
    let ghost t = s@.subrange(start as int, end as int);
    proof {
        if t.len() > 0 {
            lemma_trim_no_leading(t);
        }
    }
    s.substring_char(start, end).to_owned()
}

/// The text of a header field: its bytes decoded as UTF-8, without the NUL characters at
/// both ends.
pub open spec fn header_text(rom: Seq<u8>, from: int, to: int) -> Seq<char> {
    trim_nul_chars(utf8_lossy_chars(rom.subrange(from, to)))
}

/// Decode a NUL padded text field.
fn parse_text(rom: &[u8], from: usize, to: usize) -> (r: String)
    requires
        from <= to <= rom@.len(),
    ensures
        r@ == header_text(rom@, from as int, to as int),
        r@.len() <= to - from,
        r@.len() > 0 ==> r@[0] != '\0' && r@.last() != '\0',
{
    let decoded = utf8_lossy(&rom[from..to]);
    proof {
        lemma_trim_nul_chars(decoded@);
    }
    trim_nul_str(decoded.as_str())
}

/// Game title, at `0xA0..0xAC`.
pub fn parse_title(rom: &[u8]) -> (r: String)
    requires
        rom@.len() >= 0xAC,
    ensures
        r@ == header_text(rom@, 0xA0, 0xAC),
        r@.len() <= 12,
        r@.len() > 0 ==> r@[0] != '\0' && r@.last() != '\0',
{
    parse_text(rom, 0xA0, 0xAC)
}

/// Game code, at `0xAC..0xB0`.
pub fn parse_game_code(rom: &[u8]) -> (r: String)
    requires
        rom@.len() >= 0xB0,
    ensures
        r@ == header_text(rom@, 0xAC, 0xB0),
        r@.len() <= 4,
        r@.len() > 0 ==> r@[0] != '\0' && r@.last() != '\0',
{
    parse_text(rom, 0xAC, 0xB0)
}

/// The region named by the fourth character of a game code; unknown letters default to `Japan`.
pub open spec fn region_of_code(game_code: Seq<char>) -> Option<Region> {
    if game_code.len() < 4 {
        None
    } else {
        let c = game_code[3];
        Some(
            if c == 'J' {
                Region::Japan
            } else if c == 'P' {
                Region::Europe
            } else if c == 'F' {
                Region::French
            } else if c == 'S' {
                Region::Spanish
            } else if c == 'E' {
                Region::Usa
            } else if c == 'D' {
                Region::German
            } else if c == 'I' {
                Region::Italian
            } else {
                Region::Japan
            },
        )
    }
}

/// The region of a game code, `None` when the code has fewer than four characters.
pub fn parse_region(game_code: &str) -> (r: Option<Region>)
    ensures
        r == region_of_code(game_code@),
{
    if game_code.unicode_len() < 4 {
        return None;
    }
    let c = game_code.get_char(3);
    Some(
        if c == 'J' {
            Region::Japan
        } else if c == 'P' {
            Region::Europe
        } else if c == 'F' {
            Region::French
        } else if c == 'S' {
            Region::Spanish
        } else if c == 'E' {
            Region::Usa
        } else if c == 'D' {
            Region::German
        } else if c == 'I' {
            Region::Italian
        } else {
            Region::Japan
        },
    )
}

/// Maker code, at `0xB0..0xB2`.
pub fn parse_maker_code(rom: &[u8]) -> (r: String)
    requires
        rom@.len() >= 0xB2,
    ensures
        r@ == header_text(rom@, 0xB0, 0xB2),
        r@.len() <= 2,
        r@.len() > 0 ==> r@[0] != '\0' && r@.last() != '\0',
{
    parse_text(rom, 0xB0, 0xB2)
}

/// Main unit code, at `0xB3`.
pub fn parse_main_unit_code(rom: &[u8]) -> (r: u8)
    requires
        rom@.len() > 0xB3,
    ensures
        r == rom@[0xB3],
{
    rom[0xB3]
}

/// Device type, at `0xB4`.
pub fn parse_device_type(rom: &[u8]) -> (r: u8)
    requires
        rom@.len() > 0xB4,
    ensures
        r == rom@[0xB4],
{
    rom[0xB4]
}

/// Software version, at `0xBC`.
pub fn parse_software_version(rom: &[u8]) -> (r: u8)
    requires
        rom@.len() > 0xBC,
    ensures
        r == rom@[0xBC],
{
    rom[0xBC]
}

/// Complement checksum, at `0xBD`.
pub fn parse_complement_checksum(rom: &[u8]) -> (r: u8)
    requires
        rom@.len() > 0xBD,
    ensures
        r == rom@[0xBD],
{
    rom[0xBD]
}

/// Zero minus the sum of the bytes, wrapping at 8 bits.
pub open spec fn negated_byte_sum(s: Seq<u8>) -> u8
    decreases s.len(),
{
    if s.len() == 0 {
        0
    } else {
        negated_byte_sum(s.drop_last()).wrapping_sub(s.last())
    }
}

/// The header checksum as the hardware computes it over `0xA0..0xBC`.
pub open spec fn header_checksum(rom: Seq<u8>) -> u8 {
    negated_byte_sum(rom.subrange(0xA0, 0xBC)).wrapping_sub(0x19)
}

/// The names the save memory kinds are announced by in a ROM, followed by `_V` and three digits.
pub const BACKUP_ID_PATTERN: &'static str = "(EEPROM|SRAM|FLASH|FLASH512|FLASH1M)_V(\\d{3})";

/// The save memory kind announced by a name.
pub open spec fn backup_id_of_name(name: Seq<u8>) -> Option<CartBackupId> {
    if name == seq![69u8, 69, 80, 82, 79, 77] {
        Some(CartBackupId::EEProm)
    } else if name == seq![83u8, 82, 65, 77] {
        Some(CartBackupId::Sram)
    } else if name == seq![70u8, 76, 65, 83, 72] {
        Some(CartBackupId::Flash64)
    } else if name == seq![70u8, 76, 65, 83, 72, 53, 49, 50] {
        Some(CartBackupId::Flash64)
    } else if name == seq![70u8, 76, 65, 83, 72, 49, 77] {
        Some(CartBackupId::Flash128)
    } else {
        None
    }
}

/// Whether two byte strings are equal.
fn bytes_eq(a: &[u8], b: &[u8]) -> (r: bool)
    ensures
        r == (a@ == b@),
{
    if a.len() != b.len() {
        return false;
    }
    let mut i: usize = 0;
    while i < a.len()
        invariant
            i <= a@.len(),
            a@.len() == b@.len(),
            forall|j: int| 0 <= j < i ==> a@[j] == b@[j],
        decreases a@.len() - i,
    {
        if a[i] != b[i] {
            return false;
        }
        i = i + 1;
    }
    assert(a@ =~= b@);
    true
}

/// The save memory kind announced by a name, `None` for a name that announces none.
pub fn backup_id_from_name(name: &[u8]) -> (r: Option<CartBackupId>)
    ensures
        r == backup_id_of_name(name@),
{
    let eeprom: [u8; 6] = [69, 69, 80, 82, 79, 77];
    let sram: [u8; 4] = [83, 82, 65, 77];
    let flash: [u8; 5] = [70, 76, 65, 83, 72];
    let flash512: [u8; 8] = [70, 76, 65, 83, 72, 53, 49, 50];
    let flash1m: [u8; 7] = [70, 76, 65, 83, 72, 49, 77];
    assert(eeprom@ =~= seq![69u8, 69, 80, 82, 79, 77]);
    assert(sram@ =~= seq![83u8, 82, 65, 77]);
    assert(flash@ =~= seq![70u8, 76, 65, 83, 72]);
    assert(flash512@ =~= seq![70u8, 76, 65, 83, 72, 53, 49, 50]);
    assert(flash1m@ =~= seq![70u8, 76, 65, 83, 72, 49, 77]);
    if bytes_eq(name, eeprom.as_slice()) {
        Some(CartBackupId::EEProm)
    } else if bytes_eq(name, sram.as_slice()) {
        Some(CartBackupId::Sram)
    } else if bytes_eq(name, flash.as_slice()) {
        Some(CartBackupId::Flash64)
    } else if bytes_eq(name, flash512.as_slice()) {
        Some(CartBackupId::Flash64)
    } else if bytes_eq(name, flash1m.as_slice()) {
        Some(CartBackupId::Flash128)
    } else {
        None
    }
}

/// The save memory kind announced by the first backup id string in the ROM.
pub open spec fn backup_id_of_rom(rom: Seq<u8>) -> Option<CartBackupId> {
    match regex_first_group(BACKUP_ID_PATTERN@, rom) {
        Some(name) => backup_id_of_name(name),
        None => None,
    }
}

/// Tries to find the backup ID string somewhere in the ROM.
/// If it fails will return [Option::None].
pub fn find_backup_id(rom: &[u8]) -> (r: Option<CartBackupId>)
    ensures
        r == backup_id_of_rom(rom@),
{
    match regex_capture_group_1(BACKUP_ID_PATTERN, rom) {
        Some(name) => backup_id_from_name(name.as_slice()),
        None => None,
    }
}

impl CartridgeHeader {
    /// Create a new [CartridgeHeader] from the full contents of a ROM file.
    pub fn new(rom: &[u8]) -> (r: CartridgeHeader)
        requires
            rom@.len() > 0xBD,
        ensures
            r.game_title@ == header_text(rom@, 0xA0, 0xAC),
            r.game_code@ == header_text(rom@, 0xAC, 0xB0),
            r.maker_code@ == header_text(rom@, 0xB0, 0xB2),
            r.game_title@.len() <= 12,
            r.game_code@.len() <= 4,
            r.maker_code@.len() <= 2,
            r.main_unit_code == rom@[0xB3],
            r.device_type == rom@[0xB4],
            r.software_version == rom@[0xBC],
            r.complement_checksum == rom@[0xBD],
            r.backup_id == (match backup_id_of_rom(rom@) {
                Some(id) => id,
                None => CartBackupId::Flash64,
            }),
    {
        let read_chksum = parse_complement_checksum(rom);
        let backup_id = match find_backup_id(rom) {
            Some(id) => id,
            None => CartBackupId::Flash64,
        };
        CartridgeHeader {
            game_title: parse_title(rom),
            game_code: parse_game_code(rom),
            maker_code: parse_maker_code(rom),
            main_unit_code: parse_main_unit_code(rom),
            device_type: parse_device_type(rom),
            software_version: parse_software_version(rom),
            complement_checksum: read_chksum,
            backup_id,
        }
    }

    /// The region the game code announces.
    pub fn region(&self) -> (r: Option<Region>)
        ensures
            r == region_of_code(self.game_code@),
    {
        parse_region(self.game_code.as_str())
    }

    /// The header checksum computed over the header bytes, to compare with the stored one.
    pub fn calculate_checksum(rom: &[u8]) -> (r: u8)
        requires
            rom@.len() >= 0xBC,
        ensures
            r == header_checksum(rom@),
    {
        let mut acc: u8 = 0;
        let mut i: usize = 0xA0;
        while i < 0xBC
            invariant
                0xA0 <= i <= 0xBC,
                rom@.len() >= 0xBC,
                acc == negated_byte_sum(rom@.subrange(0xA0, i as int)),
            decreases 0xBC - i,
        {
            assert(rom@.subrange(0xA0, i + 1).drop_last() =~= rom@.subrange(0xA0, i as int));
            acc = acc.wrapping_sub(rom[i]);
            i = i + 1;
        }
        acc.wrapping_sub(0x19)
    }
}

} // verus!
