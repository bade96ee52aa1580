use vstd::prelude::*;

verus! {

/// The memory controller and extras a cartridge declares in its header.
#[derive(Clone, Copy, Debug, PartialEq, Eq)]
pub enum CartridgeType {
    RomOnly,
    Mbc1,
    Mbc1Ram,
    Mbc1RamBattery,
    Mbc2,
    Mbc2Battery,
    RomRam,
    RomRamBattery,
    Mmm01,
    Mmm01Ram,
    Mmm01RamBattery,
    Mbc3TimerBattery,
    Mbc3TimerRamBattery,
    Mbc3,
    Mbc3Ram,
    Mbc3RamBattery,
    Mbc5,
    Mbc5Ram,
    Mbc5RamBattery,
    Mbc5Rumble,
    Mbc5RumbleRam,
    Mbc5RumbleRamBattery,
    Mbc6,
    Mbc7SensorRumbleRamBattery,
    PocketCamera,
    BandaiTama5,
    Huc3,
    Huc1RamBattery,
}

/// The header code of each cartridge type.
pub open spec fn type_code(t: CartridgeType) -> u8 {
    match t {
        CartridgeType::RomOnly => 0x00,
        CartridgeType::Mbc1 => 0x01,
        CartridgeType::Mbc1Ram => 0x02,
        CartridgeType::Mbc1RamBattery => 0x03,
        CartridgeType::Mbc2 => 0x05,
        CartridgeType::Mbc2Battery => 0x06,
        CartridgeType::RomRam => 0x08,
        CartridgeType::RomRamBattery => 0x09,
        CartridgeType::Mmm01 => 0x0b,
        CartridgeType::Mmm01Ram => 0x0c,
        CartridgeType::Mmm01RamBattery => 0x0d,
        CartridgeType::Mbc3TimerBattery => 0x0f,
        CartridgeType::Mbc3TimerRamBattery => 0x10,
        CartridgeType::Mbc3 => 0x11,
        CartridgeType::Mbc3Ram => 0x12,
        CartridgeType::Mbc3RamBattery => 0x13,
        CartridgeType::Mbc5 => 0x19,
        CartridgeType::Mbc5Ram => 0x1a,
        CartridgeType::Mbc5RamBattery => 0x1b,
        CartridgeType::Mbc5Rumble => 0x1c,
        CartridgeType::Mbc5RumbleRam => 0x1d,
        CartridgeType::Mbc5RumbleRamBattery => 0x1e,
        CartridgeType::Mbc6 => 0x20,
        CartridgeType::Mbc7SensorRumbleRamBattery => 0x22,
        CartridgeType::PocketCamera => 0xfc,
        CartridgeType::BandaiTama5 => 0xfd,
        CartridgeType::Huc3 => 0xfe,
        CartridgeType::Huc1RamBattery => 0xff,
    }
}

/// The cartridge type a header code declares, as the header format lists them.
pub open spec fn cartridge_type_of(n: u8) -> Option<CartridgeType> {
    match n {
        0x00 => Some(CartridgeType::RomOnly),
        0x01 => Some(CartridgeType::Mbc1),
        0x02 => Some(CartridgeType::Mbc1Ram),
        0x03 => Some(CartridgeType::Mbc1RamBattery),
        0x05 => Some(CartridgeType::Mbc2),
        0x06 => Some(CartridgeType::Mbc2Battery),
        0x08 => Some(CartridgeType::RomRam),
        0x09 => Some(CartridgeType::RomRamBattery),
        0x0b => Some(CartridgeType::Mmm01),
        0x0c => Some(CartridgeType::Mmm01Ram),
        0x0d => Some(CartridgeType::Mmm01RamBattery),
        0x0f => Some(CartridgeType::Mbc3TimerBattery),
        0x10 => Some(CartridgeType::Mbc3TimerRamBattery),
        0x11 => Some(CartridgeType::Mbc3),
        0x12 => Some(CartridgeType::Mbc3Ram),
        0x13 => Some(CartridgeType::Mbc3RamBattery),
        0x19 => Some(CartridgeType::Mbc5),
        0x1a => Some(CartridgeType::Mbc5Ram),
        0x1b => Some(CartridgeType::Mbc5RamBattery),
        0x1c => Some(CartridgeType::Mbc5Rumble),
        0x1d => Some(CartridgeType::Mbc5RumbleRam),
        0x1e => Some(CartridgeType::Mbc5RumbleRamBattery),
        0x20 => Some(CartridgeType::Mbc6),
        0x22 => Some(CartridgeType::Mbc7SensorRumbleRamBattery),
        0xfc => Some(CartridgeType::PocketCamera),
        0xfd => Some(CartridgeType::BandaiTama5),
        0xfe => Some(CartridgeType::Huc3),
        0xff => Some(CartridgeType::Huc1RamBattery),
        _ => None,
    }
}

/// The two tables agree: each type's code names that type, and a code names a
/// type only when it is that type's code.
pub proof fn lemma_type_code_round_trip(t: CartridgeType, n: u8)
    ensures
        cartridge_type_of(type_code(t)) == Some(t),
        cartridge_type_of(n) == Some(t) ==> type_code(t) == n,
{
}

impl CartridgeType {
    /// The cartridge type whose header code is `n`, if there is one.
    pub fn new(n: u8) -> (r: Option<CartridgeType>)
        ensures
            r == cartridge_type_of(n),
    {
        match n {
            0x00 => Some(CartridgeType::RomOnly),
            0x01 => Some(CartridgeType::Mbc1),
            0x02 => Some(CartridgeType::Mbc1Ram),
            0x03 => Some(CartridgeType::Mbc1RamBattery),
            0x05 => Some(CartridgeType::Mbc2),
            0x06 => Some(CartridgeType::Mbc2Battery),
            0x08 => Some(CartridgeType::RomRam),
            0x09 => Some(CartridgeType::RomRamBattery),
            0x0b => Some(CartridgeType::Mmm01),
            0x0c => Some(CartridgeType::Mmm01Ram),
            0x0d => Some(CartridgeType::Mmm01RamBattery),
            0x0f => Some(CartridgeType::Mbc3TimerBattery),
            0x10 => Some(CartridgeType::Mbc3TimerRamBattery),
            0x11 => Some(CartridgeType::Mbc3),
            0x12 => Some(CartridgeType::Mbc3Ram),
            0x13 => Some(CartridgeType::Mbc3RamBattery),
            0x19 => Some(CartridgeType::Mbc5),
            0x1a => Some(CartridgeType::Mbc5Ram),
            0x1b => Some(CartridgeType::Mbc5RamBattery),
            0x1c => Some(CartridgeType::Mbc5Rumble),
            0x1d => Some(CartridgeType::Mbc5RumbleRam),
            0x1e => Some(CartridgeType::Mbc5RumbleRamBattery),
            0x20 => Some(CartridgeType::Mbc6),
            0x22 => Some(CartridgeType::Mbc7SensorRumbleRamBattery),
            0xfc => Some(CartridgeType::PocketCamera),
            0xfd => Some(CartridgeType::BandaiTama5),
            0xfe => Some(CartridgeType::Huc3),
            0xff => Some(CartridgeType::Huc1RamBattery),
            _ => None,
        }
    }
}

pub const INTERRUPTS_BEGIN: usize = 0x0000;
pub const INTERRUPTS_END: usize = 0x00ff;
pub const HEADER_BEGIN: usize = 0x0100;
pub const HEADER_END: usize = 0x014f;
pub const BANK0_BEGIN: usize = 0x0150;
pub const BANK0_END: usize = 0x3fff;
pub const BANK1_BEGIN: usize = 0x4000;
pub const BANK1_END: usize = 0x7fff;

/// A name for what `String::from_utf8_lossy` makes of a byte sequence: valid
/// UTF-8 decoded, each invalid sequence replaced by U+FFFD.
pub uninterp spec fn utf8_lossy(b: Seq<u8>) -> Seq<char>;

/// Relies on `String::from_utf8_lossy` (then `into_owned`): the text depends on
/// the bytes alone.
#[verifier::external_body]
fn lossy_string(b: &[u8]) -> (r: String)
    ensures
        r@ == utf8_lossy(b@),
{
    String::from_utf8_lossy(b).into_owned()
}

/// The RAM size a header code declares, in bytes.
pub open spec fn ram_size_spec(code: u8) -> Option<u32> {
    if code == 1 {
        Some(2048)
    } else if code == 2 {
        Some(8192)
    } else if code == 3 {
        Some(32768)
    } else if code == 4 {
        Some(131072)
    } else if code == 5 {
        Some(65536)
    } else {
        None
    }
}

/// 32 KiB shifted left by `code` bits, as a 32-bit value (bits past bit 31 are
/// lost, so codes from 17 on give 0).
pub open spec fn rom_size_spec(code: u8) -> u32
    decreases code,
{
    if code == 0 {
        0x8000
    } else {
        ((rom_size_spec((code - 1) as u8) * 2) % 0x1_0000_0000) as u32
    }
}

/// The raw contents of a cartridge ROM.
pub struct Cartridge {
    pub raw_data: Vec<u8>,
}

impl Cartridge {
    pub fn new(raw_data: Vec<u8>) -> (r: Cartridge)
        ensures
            r.raw_data@ == raw_data@,
    {
        Cartridge { raw_data }
    }

    fn range(&self, begin: usize, end: usize) -> (r: &[u8])
        requires
            begin <= end < self.raw_data@.len(),
        ensures
            r@ == self.raw_data@.subrange(begin as int, end + 1),
    {
        let len = self.raw_data.len();
        assert(end + 1 <= len);
        vstd::slice::slice_subrange(self.raw_data.as_slice(), begin, end + 1)
    }

    /// The interrupt vectors, bytes 0x0000 to 0x00FF.
    pub fn interrupts(&self) -> (r: &[u8])
        requires
            self.raw_data@.len() > INTERRUPTS_END,
        ensures
            r@ == self.raw_data@.subrange(INTERRUPTS_BEGIN as int, INTERRUPTS_END + 1),
    {
        self.range(INTERRUPTS_BEGIN, INTERRUPTS_END)
    }

    /// The header, bytes 0x0100 to 0x014F.
    pub fn header(&self) -> (r: &[u8])
        requires
            self.raw_data@.len() > HEADER_END,
        ensures
            r@ == self.raw_data@.subrange(HEADER_BEGIN as int, HEADER_END + 1),
    {
        self.range(HEADER_BEGIN, HEADER_END)
    }

    /// The rest of bank 0, bytes 0x0150 to 0x3FFF.
    pub fn bank0(&self) -> (r: &[u8])
        requires
            self.raw_data@.len() > BANK0_END,
        ensures
            r@ == self.raw_data@.subrange(BANK0_BEGIN as int, BANK0_END + 1),
    {
        self.range(BANK0_BEGIN, BANK0_END)
    }

    /// Bank 1, bytes 0x4000 to 0x7FFF.
    pub fn bank1(&self) -> (r: &[u8])
        requires
            self.raw_data@.len() > BANK1_END,
        ensures
            r@ == self.raw_data@.subrange(BANK1_BEGIN as int, BANK1_END + 1),
    {
        self.range(BANK1_BEGIN, BANK1_END)
    }

    /// The logo bitmap, bytes 0x0104 to 0x0132.
    pub fn nintendo_logo(&self) -> (r: &[u8])
        requires
            self.raw_data@.len() >= 0x133,
        ensures
            r@ == self.raw_data@.subrange(0x104, 0x133),
    {
        self.range(0x104, 0x132)
    }

    /// The title, bytes 0x0134 to 0x0142, decoded as UTF-8 with invalid sequences
    /// replaced.
    pub fn title(&self) -> (r: String)
        requires
            self.raw_data@.len() >= 0x143,
        ensures
            r@ == utf8_lossy(self.raw_data@.subrange(0x134, 0x143)),
    {
        lossy_string(self.range(0x134, 0x142))
    }

    /// The manufacturer code, bytes 0x013F to 0x0141, decoded like the title.
    pub fn manufactor_code(&self) -> (r: String)
        requires
            self.raw_data@.len() >= 0x142,
        ensures
            r@ == utf8_lossy(self.raw_data@.subrange(0x13f, 0x142)),
    {
        lossy_string(self.range(0x13f, 0x141))
    }

    /// Whether the cartridge supports the Super Game Boy functions: SGB flag 0x03
    /// at 0x0146 and old licensee code 0x33 at 0x014B.
    pub fn sgb(&self) -> (r: bool)
        requires
            self.raw_data@.len() > 0x14b,
        ensures
            r == (self.raw_data@[0x14b] == 0x33 && self.raw_data@[0x146] == 0x03),
    {
        self.raw_data[0x14b] == 0x33 && self.raw_data[0x146] == 0x03
    }

    /// The cartridge type declared at 0x0147, if its code is known.
    pub fn cartridge_type(&self) -> (r: Option<CartridgeType>)
        requires
            self.raw_data@.len() > 0x147,
        ensures
            r == cartridge_type_of(self.raw_data@[0x147]),
    {
        CartridgeType::new(self.raw_data[0x147])
    }

    /// The ROM size declared at 0x0148: 32 KiB shifted left by the code.
    pub fn rom_size(&self) -> (r: u32)
        requires
            self.raw_data@.len() > 0x148,
        ensures
            r == rom_size_spec(self.raw_data@[0x148]),
    {
        let code = self.raw_data[0x148];
        let mut size: u32 = 0x8000;
        let mut k: u8 = 0;
        while k < code
            invariant
                k <= code,
                size == rom_size_spec(k),
            decreases code - k,
        {
            k = k + 1;
            size = ((size as u64 * 2) % 0x1_0000_0000) as u32;
        }
        size
    }

    /// The external RAM size declared at 0x0149, in bytes, if its code is known.
    pub fn ram_size(&self) -> (r: Option<u32>)
        requires
            self.raw_data@.len() > 0x149,
        ensures
            r == ram_size_spec(self.raw_data@[0x149]),
    {
        match self.raw_data[0x149] {
            0x01 => Some(2 * 1024),
            0x02 => Some(8 * 1024),
            0x03 => Some(32 * 1024),
            0x04 => Some(128 * 1024),
            0x05 => Some(64 * 1024),
            _ => None,
        }
    }

    /// The destination code at 0x014A.
    pub fn destination_code(&self) -> (r: u8)
        requires
            self.raw_data@.len() > 0x14a,
        ensures
            r == self.raw_data@[0x14a],
    {
        self.raw_data[0x14a]
    }

    /// The mask ROM version number at 0x014C.
    pub fn mask_rom_version(&self) -> (r: u8)
        requires
            self.raw_data@.len() > 0x14c,
        ensures
            r == self.raw_data@[0x14c],
    {
        self.raw_data[0x14c]
    }

    /// The header checksum at 0x014D.
    pub fn header_checksum(&self) -> (r: u8)
        requires
            self.raw_data@.len() > 0x14d,
        ensures
            r == self.raw_data@[0x14d],
    {
        self.raw_data[0x14d]
    }

    /// The global checksum at 0x014E (high byte) and 0x014F (low byte).
    pub fn global_checksum(&self) -> (r: u16)
        requires
            self.raw_data@.len() > 0x14f,
        ensures
            r == crate::combine(self.raw_data@[0x14e], self.raw_data@[0x14f]),
    {
        crate::u8_to_u16(self.raw_data[0x14e], self.raw_data[0x14f])
    }
}

} // verus!
