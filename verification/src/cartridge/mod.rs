//! Cartridge emulation. There are multiple cartridge types with
//! different capabilities (bankable ROM/RAM, battery, RTC etc...).

use vstd::prelude::*;
use crate::cartridge::models::{Model, ModelKind, spec_known_model, spec_model_kind,
    spec_write_rom, spec_read_ram, spec_ram_absolute, spec_write_ram, spec_kind_name};

pub mod models;
pub mod rtc;
pub mod banks;

verus! {

/// Each ROM bank is always 16KB
pub const ROM_BANK_SIZE: i32 = 16 * 1024;

/// Bankable RAM is always 8KB per bank
pub const RAM_BANK_SIZE: u32 = 8 * 1024;

/// Title. Upper case ASCII 16bytes long, padded with 0s if shorter
pub const TITLE_OFFSET: usize = 0x134;

/// Length of the title field
pub const TITLE_SIZE: usize = 16;

/// Cartridge type
pub const TYPE_OFFSET: usize = 0x147;

/// ROM size code
pub const ROM_SIZE_OFFSET: usize = 0x148;

/// RAM size code
pub const RAM_SIZE_OFFSET: usize = 0x149;

/// Number of 16KB ROM banks declared by ROM size code `id`
pub open spec fn spec_rom_banks_for(id: u8) -> Option<u8> {
    if id <= 6 {
        Some((2 * vstd::arithmetic::power2::pow2(id as nat)) as u8)
    } else if id == 0x52 {
        Some(72)
    } else if id == 0x53 {
        Some(80)
    } else if id == 0x54 {
        Some(96)
    } else {
        None
    }
}

/// Number of ROM banks declared by ROM size code `id`, `None` for an
/// unknown code
pub fn rom_banks_for(id: u8) -> (r: Option<u8>)
    ensures
        r == spec_rom_banks_for(id),
{
    proof {
        vstd::arithmetic::power2::lemma2_to64();
    }
    match id {
        0x00 => Some(2),
        0x01 => Some(4),
        0x02 => Some(8),
        0x03 => Some(16),
        0x04 => Some(32),
        0x05 => Some(64),
        0x06 => Some(128),
        0x52 => Some(72),
        0x53 => Some(80),
        0x54 => Some(96),
        // Unknown value
        _ => None,
    }
}

/// Number of RAM banks and bank size in bytes declared by RAM size
/// code `id`
pub open spec fn spec_ram_banks_for(id: u8) -> Option<(usize, usize)> {
    if id == 0 {
        Some((0, 0))
    } else if id == 1 {
        Some((1, 2048))
    } else if id == 2 {
        Some((1, 8192))
    } else if id == 3 {
        Some((4, 8192))
    } else if id == 4 {
        Some((16, 8192))
    } else {
        None
    }
}

/// Number of RAM banks and bank size in bytes declared by RAM size
/// code `id`, `None` for an unknown code
pub fn ram_banks_for(id: u8) -> (r: Option<(usize, usize)>)
    ensures
        r == spec_ram_banks_for(id),
{
    let (nbanks, bank_size_kb): (usize, usize) = match id {
        0x00 => (0, 0),
        0x01 => (1, 2),
        0x02 => (1, 8),
        0x03 => (4, 8),
        0x04 => (16, 8),
        // Unknown value
        _ => return None,
    };
    Some((nbanks, bank_size_kb * 1024))
}

/// Index (at most 16) of the first null byte of the title field
/// starting at title byte `i`
pub open spec fn spec_title_len_from(rom: Seq<u8>, i: int) -> int
    decreases 16 - i,
{
    if i >= 16 {
        16
    } else if rom[TITLE_OFFSET + i] == 0 {
        i
    } else {
        spec_title_len_from(rom, i + 1)
    }
}

/// Printable ASCII character
pub open spec fn spec_is_print(c: u8) -> bool {
    0x20 <= c <= 0x7e
}

/// ASCII punctuation: a visible character that is not alphanumeric
pub open spec fn spec_is_punctuation(c: u8) -> bool {
    (0x21 <= c <= 0x2f) || (0x3a <= c <= 0x40) || (0x5b <= c <= 0x60) || (0x7b <= c <= 0x7e)
}

/// Character accepted in a title: any printable ASCII character, or
/// with `strict` only upper case letters, blanks and punctuation
pub open spec fn spec_title_char_ok(c: u8, strict: bool) -> bool {
    if strict {
        (0x41 <= c <= 0x5a) || c == 0x20 || c == 0x09 || spec_is_punctuation(c)
    } else {
        spec_is_print(c)
    }
}

/// The title padded with 0s: the characters before the first null
/// byte, or `None` if one of them is not accepted
pub open spec fn spec_title(rom: Seq<u8>, strict: bool) -> Option<Seq<char>> {
    let n = spec_title_len_from(rom, 0);
    if forall|j: int| 0 <= j < n ==> #[trigger] spec_title_char_ok(rom[TITLE_OFFSET + j], strict) {
        Some(Seq::new(n as nat, |j: int| rom[TITLE_OFFSET + j] as char))
    } else {
        None
    }
}

/// Append the ASCII character `c` to `s`: a call of `String::push`
/// with `c` as a `char`, which std documents as appending that char.
#[verifier::external_body]
pub(crate) fn push_ascii(s: &mut String, c: u8)
    requires
        c < 128,
    ensures
        final(s)@ == old(s)@.push(c as char),
{
    s.push(c as char);
}

/// One step of the title scan: a non null byte keeps the end of the
/// title where it was
pub proof fn lemma_title_len_step(rom: Seq<u8>, i: int)
    requires
        0 <= i < 16,
        rom[TITLE_OFFSET + i] != 0,
    ensures
        spec_title_len_from(rom, i) == spec_title_len_from(rom, i + 1),
{
}

/// The title end is at least where the scan starts
pub proof fn lemma_title_len_bounds(rom: Seq<u8>, i: int)
    requires
        0 <= i <= 16,
    ensures
        i <= spec_title_len_from(rom, i) <= 16,
    decreases 16 - i,
{
    if i < 16 && rom[TITLE_OFFSET + i] != 0 {
        lemma_title_len_bounds(rom, i + 1);
    }
}

/// Abstract state of a cartridge
pub struct CartridgeView {
    pub rom: Seq<u8>,
    pub ram: Seq<u8>,
    pub rom_banks: u8,
    pub rom_bank: u8,
    pub rom_offset: i32,
    pub ram_offset: u32,
    pub ram_wp: bool,
    pub bank_ram: bool,
    pub model: Model,
}

/// Common state for all cartridge types
pub struct Cartridge {
    /// Cartridge ROM data
    rom: Vec<u8>,
    /// Cartridge RAM data
    ram: Vec<u8>,
    /// Total number of ROM banks in this cart
    rom_banks: u8,
    /// Current number of the rom bank mapped at [0x4000, 0x7fff]
    rom_bank: u8,
    /// Current bank offset for the bank mapped at [0x4000, 0x7fff].
    /// This value is added to ROM register addresses when they're in
    /// that range.
    rom_offset: i32,
    /// Current bank offset for the RAM
    ram_offset: u32,
    /// If `true` RAM is write protected
    ram_wp: bool,
    /// Certain cartridges allow banking either the RAM or ROM
    /// depending on the value of this flag.
    bank_ram: bool,
    /// Model specific behaviour
    model: Model,
}

/// ROM byte seen by the CPU at `offset`: bank 0 in [0x0000, 0x3fff],
/// the selected bank above. A read past the end of the ROM gives
/// 0xff.
pub open spec fn spec_rom_byte(v: CartridgeView, offset: u16) -> u8 {
    let addr: int = if offset < 0x4000 {
        offset as int
    } else {
        v.rom_offset + offset
    };
    if 0 <= addr < v.rom.len() {
        v.rom[addr]
    } else {
        0xff
    }
}

/// RAM address of CPU offset `offset` in the selected bank
pub open spec fn spec_ram_addr(v: CartridgeView, offset: u16) -> u32 {
    (v.ram_offset + offset) as u32
}

/// Cartridge state after a CPU write to RAM offset `offset`: ignored
/// while the RAM is write protected
#[verifier::opaque]
pub open spec fn spec_set_ram_byte(v: CartridgeView, offset: u16, val: u8) -> CartridgeView {
    if v.ram_wp {
        v
    } else {
        spec_write_ram(v, spec_ram_addr(v, offset), val)
    }
}

/// A freshly loaded cartridge: bank 1 mapped, RAM write protected
pub open spec fn spec_loaded(rom: Seq<u8>, ram: Seq<u8>, rom_banks: u8, model: Model) -> CartridgeView {
    CartridgeView {
        rom: rom,
        ram: ram,
        rom_banks: rom_banks,
        rom_bank: 1,
        rom_offset: 0,
        ram_offset: 0,
        ram_wp: true,
        bank_ram: false,
        model: model,
    }
}

/// RAM size of a cartridge whose header is `rom`, `None` if the
/// header declares an unknown size
pub open spec fn spec_parse_ram_banks(rom: Seq<u8>) -> Option<(usize, usize)> {
    if spec_model_kind(rom[TYPE_OFFSET as int]) == ModelKind::Mbc2 {
        // MBC2 contains 1 "bank" of 256bytes
        Some((1, 256))
    } else {
        spec_ram_banks_for(rom[RAM_SIZE_OFFSET as int])
    }
}

/// Header that a cartridge can be built from: known controller, ROM
/// and RAM sizes. The image may be shorter than the banks it declares:
/// the missing bytes read as 0xff.
pub open spec fn spec_valid_header(rom: Seq<u8>) -> bool {
    &&& rom.len() > RAM_SIZE_OFFSET
    &&& spec_known_model(rom[TYPE_OFFSET as int])
    &&& spec_rom_banks_for(rom[ROM_SIZE_OFFSET as int]) is Some
    &&& spec_parse_ram_banks(rom) is Some
}

/// The ROM image `rom` cut to `size` bytes, if it is longer
pub open spec fn spec_cut(rom: Seq<u8>, size: int) -> Seq<u8> {
    if rom.len() <= size {
        rom
    } else {
        rom.subrange(0, size)
    }
}

impl Cartridge {
    /// Abstract state
    pub closed spec fn view(&self) -> CartridgeView {
        CartridgeView {
            rom: self.rom@,
            ram: self.ram@,
            rom_banks: self.rom_banks,
            rom_bank: self.rom_bank,
            rom_offset: self.rom_offset,
            ram_offset: self.ram_offset,
            ram_wp: self.ram_wp,
            bank_ram: self.bank_ram,
            model: self.model,
        }
    }

    /// Consistent state: at least one ROM bank and a RAM bank number
    /// that fits in a byte
    pub open spec fn wf(&self) -> bool {
        &&& self@.rom_banks >= 1
        &&& self@.ram_offset <= 255 * RAM_BANK_SIZE
    }

    /// Check that `rom` holds a header that a cartridge can be built
    /// from
    pub fn valid_header(rom: &Vec<u8>) -> (r: bool)
        ensures
            r == spec_valid_header(rom@),
    {
        if rom.len() <= RAM_SIZE_OFFSET {
            return false;
        }
        if !models::known_model(rom[TYPE_OFFSET]) {
            return false;
        }
        if rom_banks_for(rom[ROM_SIZE_OFFSET]).is_none() {
            return false;
        }
        let ram = if models::from_id(rom[TYPE_OFFSET]).kind == ModelKind::Mbc2 {
            Some((1usize, 256usize))
        } else {
            ram_banks_for(rom[RAM_SIZE_OFFSET])
        };
        ram.is_some()
    }

    /// Build a cartridge from a ROM image. The ROM is cut to the
    /// number of banks declared in its header (a shorter image is kept
    /// whole), the RAM is cleared.
    pub fn from_rom(rom: Vec<u8>) -> (c: Cartridge)
        requires
            spec_valid_header(rom@),
        ensures
            c.wf(),
            ({
                let banks = spec_rom_banks_for(rom@[ROM_SIZE_OFFSET as int])->0;
                let (rambanks, banksize) = spec_parse_ram_banks(rom@)->0;
                &&& c@ == spec_loaded(
                    spec_cut(rom@, banks * 0x4000),
                    Seq::new((rambanks * banksize) as nat, |i: int| 0u8),
                    banks,
                    c@.model,
                )
                &&& c@.model.kind == spec_model_kind(rom@[TYPE_OFFSET as int])
                &&& c@.model.name@ == spec_kind_name(c@.model.kind)
            }),
    {
        let mut rom = rom;
        let model = models::from_id(rom[TYPE_OFFSET]);
        let rombanks = match rom_banks_for(rom[ROM_SIZE_OFFSET]) {
            Some(n) => n,
            None => 2,
        };
        let (rambanks, banksize) = if model.kind == ModelKind::Mbc2 {
            (1usize, 256usize)
        } else {
            match ram_banks_for(rom[RAM_SIZE_OFFSET]) {
                Some(v) => v,
                None => (0, 0),
            }
        };
        proof {
            vstd::arithmetic::power2::lemma2_to64();
        }
        assert(rambanks <= 16 && banksize <= 8192);
        let ghost r0 = rom@;
        rom.truncate(rombanks as usize * 0x4000);
        assert(rom@ =~= spec_cut(r0, rombanks as int * 0x4000));
        let ramsize = rambanks * banksize;
        let mut ram: Vec<u8> = Vec::new();
        while ram.len() < ramsize
            invariant
                ram.len() <= ramsize,
                forall|i: int| 0 <= i < ram.len() ==> #[trigger] ram@[i] == 0,
            decreases ramsize - ram.len(),
        {
            ram.push(0);
        }
        assert(ram@ =~= Seq::new(ramsize as nat, |i: int| 0u8));
        Cartridge {
            rom: rom,
            ram: ram,
            rom_banks: rombanks,
            // Default to bank 1 for bankable region
            rom_bank: 1,
            rom_offset: 0,
            ram_offset: 0,
            ram_wp: true,
            bank_ram: false,
            model: model,
        }
    }

    /// Create a Cartridge instance from a ROM provided in a
    /// Vec<u8>. Creates a MBC0 model without banking.
    pub fn from_vec(rom: Vec<u8>) -> (c: Cartridge)
        ensures
            c.wf(),
            c@ == spec_loaded(rom@, Seq::empty(), 2, c@.model),
            c@.model.kind == ModelKind::Mbc0,
            c@.model.name@ == spec_kind_name(ModelKind::Mbc0),
    {
        Cartridge {
            rom: rom,
            ram: Vec::new(),
            rom_bank: 1,
            rom_banks: 2,
            rom_offset: 0,
            ram_offset: 0,
            ram_wp: true,
            bank_ram: false,
            model: models::from_id(0x00),
        }
    }

    /// Restore the RAM from a save image. An empty image keeps the
    /// cleared RAM, an image of the RAM size replaces it; an image of
    /// any other size is refused and changes nothing.
    pub fn load_ram(&mut self, image: &[u8]) -> (ok: bool)
        ensures
            ok == (image@.len() == 0 || image@.len() == old(self)@.ram.len()),
            ok && image@.len() != 0 ==> final(self)@ == (CartridgeView {
                ram: image@,
                ..old(self)@
            }),
            !(ok && image@.len() != 0) ==> final(self)@ == old(self)@,
    {
        if image.len() == 0 {
            return true;
        }
        if image.len() != self.ram.len() {
            return false;
        }
        let mut i: usize = 0;
        while i < image.len()
            invariant
                self@ == (CartridgeView { ram: self@.ram, ..old(self)@ }),
                self.ram@.len() == image@.len(),
                i <= image@.len(),
                forall|j: int| 0 <= j < i ==> #[trigger] self.ram@[j] == image@[j],
            decreases image@.len() - i,
        {
            self.ram.set(i, image[i]);
            i = i + 1;
        }
        assert(self.ram@ =~= image@);
        true
    }

    /// RAM image, to be stored in a save file
    pub fn ram(&self) -> (r: &[u8])
        ensures
            r@ == self@.ram,
    {
        self.ram.as_slice()
    }

    /// Attempt to retrieve the rom's name
    pub fn name(&self) -> (r: Option<String>)
        requires
            self@.rom.len() >= TITLE_OFFSET + TITLE_SIZE,
        ensures
            r matches Some(s) ==> spec_title(self@.rom, false) == Some(s@),
            r is None ==> spec_title(self@.rom, false) is None,
    {
        let ghost rom = self.rom@;
        let mut name = String::new();
        let mut i: usize = 0;
        while i < TITLE_SIZE
            invariant_except_break
                i <= TITLE_SIZE,
                rom == self.rom@,
                rom.len() >= TITLE_OFFSET + TITLE_SIZE,
                forall|j: int|
                    0 <= j < i ==> #[trigger] spec_title_char_ok(rom[TITLE_OFFSET + j], false) && rom[TITLE_OFFSET
                        + j] != 0,
                spec_title_len_from(rom, i as int) == spec_title_len_from(rom, 0),
                name@ =~= Seq::new(i as nat, |j: int| rom[TITLE_OFFSET + j] as char),
            ensures
                i <= TITLE_SIZE,
                spec_title_len_from(rom, 0) == i,
                forall|j: int| 0 <= j < i ==> #[trigger] spec_title_char_ok(rom[TITLE_OFFSET + j], false),
                name@ =~= Seq::new(i as nat, |j: int| rom[TITLE_OFFSET + j] as char),
            decreases TITLE_SIZE - i,
        {
            let c = self.rom[TITLE_OFFSET + i];
            // If the name is shorter than 16bytes it's padded with 0s
            if c == 0 {
                break;
            }
            // Only uppercase ASCII is valid, but let's be a little
            // more lenient
            if !(0x20 <= c && c <= 0x7e) {
                assert(!spec_title_char_ok(rom[TITLE_OFFSET + i], false));
                proof {
                    lemma_title_len_bounds(rom, i as int + 1);
                }
                return None;
            }
            proof {
                lemma_title_len_step(rom, i as int);
            }
            assert(spec_title_char_ok(rom[TITLE_OFFSET + i], false) && rom[TITLE_OFFSET + i] != 0);
            assert forall|j: int| 0 <= j < i + 1 implies #[trigger] spec_title_char_ok(
                rom[TITLE_OFFSET + j],
                false,
            ) && rom[TITLE_OFFSET + j] != 0 by {
                if j < i {
                }
            }
            // Append new character
            push_ascii(&mut name, c);
            i = i + 1;
        }
        Some(name)
    }

    /// Return the number of ROM banks declared in the header. Each
    /// bank is 16KB.
    pub fn parse_rom_banks(&self) -> (r: Option<u8>)
        requires
            self@.rom.len() > ROM_SIZE_OFFSET,
        ensures
            r == spec_rom_banks_for(self@.rom[ROM_SIZE_OFFSET as int]),
    {
        rom_banks_for(self.rom[ROM_SIZE_OFFSET])
    }

    /// Return the number of RAM banks for this ROM along with the
    /// size of each bank in bytes.
    pub fn parse_ram_banks(&self) -> (r: Option<(usize, usize)>)
        requires
            self@.rom.len() > RAM_SIZE_OFFSET,
            spec_known_model(self@.rom[TYPE_OFFSET as int]),
        ensures
            r == spec_parse_ram_banks(self@.rom),
    {
        let model = models::from_id(self.rom[TYPE_OFFSET]);
        // Special case for MBC2, the RAM_SIZE field is not
        // trustworthy here (it advertises 0 banks but there's still
        // some RAM on the cartridge).
        if model.kind == ModelKind::Mbc2 {
            // MBC2 contains 1 "bank" of 256bytes
            return Some((1, 256));
        }
        ram_banks_for(self.rom[RAM_SIZE_OFFSET])
    }

    /// ROM byte seen by the CPU at `offset`
    pub fn rom_byte(&self, offset: u16) -> (r: u8)
        ensures
            r == spec_rom_byte(self@, offset),
    {
        let off = offset as i64;
        let addr: i64 = if off < 0x4000 {
            off
        } else {
            self.rom_offset as i64 + off
        };
        if addr >= 0 && (addr as u64) < self.rom.len() as u64 {
            self.rom[addr as usize]
        } else {
            0xff
        }
    }

    /// Handle a CPU write to ROM: it configures the memory bank
    /// controller
    pub fn set_rom_byte(&mut self, offset: u16, val: u8)
        requires
            old(self).wf(),
        ensures
            final(self).wf(),
            final(self)@ == spec_write_rom(old(self)@, offset, val),
    {
        proof {
            reveal(spec_write_rom);
        }
        match self.model.kind {
            ModelKind::Mbc0 => models::mbc0_write_rom(self, offset, val),
            ModelKind::Mbc1 => models::mbc1_write_rom(self, offset, val),
            ModelKind::Mbc2 => models::mbc2_write_rom(self, offset, val),
            ModelKind::Mbc3 => models::mbc3_write_rom(self, offset, val),
            ModelKind::Camera => models::camera_write_rom(self, offset, val),
        }
    }

    /// Return the value of RAM byte at `offset` in the currently
    /// selected RAM bank
    pub fn ram_byte(&self, offset: u16) -> (r: u8)
        requires
            self.wf(),
        ensures
            r == spec_read_ram(self@, spec_ram_addr(self@, offset)),
    {
        let addr = self.ram_offset + offset as u32;
        match self.model.kind {
            ModelKind::Camera => models::camera_read_ram(self, addr),
            _ => models::read_ram(self, addr),
        }
    }

    /// Return the value of a RAM byte at absolute address `addr`
    pub fn ram_byte_absolute(&self, addr: u32) -> (r: u8)
        ensures
            r == spec_ram_absolute(self@, addr),
    {
        if (addr as u64) < self.ram.len() as u64 {
            self.ram[addr as usize]
        } else {
            0
        }
    }

    /// Set the RAM byte at absolute address `addr` if it exists
    pub fn set_ram_byte_absolute(&mut self, addr: u32, val: u8)
        ensures
            final(self)@ == spec_write_ram(old(self)@, addr, val),
    {
        if (addr as u64) < self.ram.len() as u64 {
            self.ram.set(addr as usize, val);
        }
    }

    /// Set value of RAM byte at `offset` in the curretly selected RAM
    /// bank
    pub fn set_ram_byte(&mut self, offset: u16, val: u8)
        requires
            old(self).wf(),
        ensures
            final(self).wf(),
            final(self)@ == spec_set_ram_byte(old(self)@, offset, val),
    {
        proof {
            reveal(spec_set_ram_byte);
        }
        let addr = self.ram_offset + offset as u32;
        if self.ram_wp {
            // Attempt to write to cartridge RAM while protected
            return ;
        }
        models::write_ram(self, addr, val);
    }

    /// Retrieve the number of ROM banks in the cartridge
    pub fn rom_banks(&self) -> (r: u8)
        ensures
            r == self@.rom_banks,
    {
        self.rom_banks
    }

    /// Retrieve current ROM bank number for the bankable range at
    /// [0x4000, 0x7fff]
    pub fn rom_bank(&self) -> (r: u8)
        ensures
            r == self@.rom_bank,
    {
        self.rom_bank
    }

    /// Set new ROM bank number for the bankable range at
    /// [0x4000, 0x7fff]
    pub fn set_rom_bank(&mut self, bank: u8)
        ensures
            final(self)@ == (CartridgeView { rom_bank: bank, ..old(self)@ }),
    {
        self.rom_bank = bank;
    }

    pub fn set_rom_offset(&mut self, offset: i32)
        ensures
            final(self)@ == (CartridgeView { rom_offset: offset, ..old(self)@ }),
    {
        self.rom_offset = offset;
    }

    /// Enable or disable RAM write protect
    pub fn set_ram_wp(&mut self, wp: bool)
        ensures
            final(self)@ == (CartridgeView { ram_wp: wp, ..old(self)@ }),
    {
        self.ram_wp = wp
    }

    /// Return the value of the `bank_ram` flag
    pub fn bank_ram(&self) -> (r: bool)
        ensures
            r == self@.bank_ram,
    {
        self.bank_ram
    }

    /// Set the value of the `bank_ram` flag
    pub fn set_bank_ram(&mut self, v: bool)
        ensures
            final(self)@ == (CartridgeView { bank_ram: v, ..old(self)@ }),
    {
        self.bank_ram = v
    }

    /// Set new RAM bank number
    pub fn set_ram_bank(&mut self, bank: u8)
        ensures
            final(self)@ == (CartridgeView { ram_offset: models::spec_ram_offset(bank), ..old(self)@ }),
    {
        // Bankable RAM is always 8KB per bank
        self.ram_offset = bank as u32 * RAM_BANK_SIZE;
    }

    /// Model of the cartridge
    pub fn model(&self) -> (r: Model)
        ensures
            r == self@.model,
    {
        self.model
    }
}

} // verus!
