//! ROM image of the first cartridge loader: two banks, the high one
//! selected by writes to [0x2000, 0x7fff]

use vstd::prelude::*;
use crate::cartridge::{rom_banks_for, ram_banks_for, spec_rom_banks_for, spec_ram_banks_for,
    spec_title, spec_title_char_ok, spec_title_len_from, lemma_title_len_step,
    lemma_title_len_bounds, push_ascii, TITLE_OFFSET, TITLE_SIZE, ROM_SIZE_OFFSET,
    RAM_SIZE_OFFSET};

verus! {

/// Each ROM bank is always 16KB
pub const ROM_BANK_SIZE: usize = 16 * 1024;

/// Abstract state of a ROM
pub struct RomView {
    /// Full cartridge data
    pub data: Seq<u8>,
    /// Current bank offset for the "high" bank.
    pub high_bank: int,
}

/// ROM image
pub struct Rom {
    /// Full cartridge data
    data: Vec<u8>,
    /// Current bank offset for the "high" bank.
    high_bank: usize,
}

/// Address in the data of the byte mapped at `offset`
pub open spec fn spec_rom_addr(v: RomView, offset: u16) -> int {
    if offset < ROM_BANK_SIZE {
        offset as int
    } else {
        v.high_bank + offset
    }
}

/// Bank offset selected by writing `val` to [0x2000, 0x7fff]: bank 0
/// can't be selected, it defaults to 1
pub open spec fn spec_high_bank(val: u8) -> int {
    ROM_BANK_SIZE * (if val == 0 { 0 } else { val - 1 })
}

impl Rom {
    /// Abstract state
    pub closed spec fn view(&self) -> RomView {
        RomView { data: self.data@, high_bank: self.high_bank as int }
    }

    /// Load the ROM from `source`: the number of banks declared in the
    /// header. `None` if `source` is shorter than that.
    pub fn from_reader(source: &[u8]) -> (r: Option<Rom>)
        requires
            source@.len() >= 2 * ROM_BANK_SIZE ==> spec_rom_banks_for(
                source@[ROM_SIZE_OFFSET as int],
            ) is Some,
        ensures
            ({
                let n = spec_rom_banks_for(source@[ROM_SIZE_OFFSET as int])->0;
                &&& r is None <==> (source@.len() < 2 * ROM_BANK_SIZE || source@.len() < n
                    * ROM_BANK_SIZE)
                &&& r matches Some(rom) ==> rom@.data == source@.subrange(
                    0,
                    n * ROM_BANK_SIZE,
                ) && rom@.high_bank == 0
            }),
    {
        // There must always be at least two ROM banks
        if source.len() < 2 * ROM_BANK_SIZE {
            return None;
        }
        let nbanks = match rom_banks_for(source[ROM_SIZE_OFFSET]) {
            Some(n) => n,
            None => 2,
        };
        let size = nbanks as usize * ROM_BANK_SIZE;
        if source.len() < size {
            return None;
        }
        let mut data: Vec<u8> = Vec::new();
        let mut i: usize = 0;
        while i < size
            invariant
                i <= size <= source@.len(),
                data@ =~= source@.subrange(0, i as int),
            decreases size - i,
        {
            data.push(source[i]);
            i = i + 1;
        }
        Some(Rom { data: data, high_bank: 0 })
    }

    /// Attempt to retrieve the rom's name
    pub fn name(&self) -> (r: Option<String>)
        requires
            self@.data.len() >= TITLE_OFFSET + TITLE_SIZE,
        ensures
            r matches Some(s) ==> spec_title(self@.data, true) == Some(s@),
            r is None ==> spec_title(self@.data, true) is None,
    {
        let ghost rom = self.data@;
        let mut name = String::new();
        let mut i: usize = 0;
        while i < TITLE_SIZE
            invariant_except_break
                i <= TITLE_SIZE,
                rom == self.data@,
                rom.len() >= TITLE_OFFSET + TITLE_SIZE,
                forall|j: int|
                    0 <= j < i ==> #[trigger] spec_title_char_ok(rom[TITLE_OFFSET + j], true)
                        && rom[TITLE_OFFSET + j] != 0,
                spec_title_len_from(rom, i as int) == spec_title_len_from(rom, 0),
                name@ =~= Seq::new(i as nat, |j: int| rom[TITLE_OFFSET + j] as char),
            ensures
                i <= TITLE_SIZE,
                spec_title_len_from(rom, 0) == i,
                forall|j: int| 0 <= j < i ==> #[trigger] spec_title_char_ok(rom[TITLE_OFFSET + j], true),
                name@ =~= Seq::new(i as nat, |j: int| rom[TITLE_OFFSET + j] as char),
            decreases TITLE_SIZE - i,
        {
            let c = self.data[TITLE_OFFSET + i];
            // If the name is shorter than 16bytes it's padded with 0s
            if c == 0 {
                break;
            }
            // Only uppercase ASCII is valid
            let upper = 0x41 <= c && c <= 0x5a;
            let blank = c == 0x20 || c == 0x09;
            let punct = (0x21 <= c && c <= 0x2f) || (0x3a <= c && c <= 0x40) || (0x5b <= c && c
                <= 0x60) || (0x7b <= c && c <= 0x7e);
            if !(upper || blank || punct) {
                assert(!spec_title_char_ok(rom[TITLE_OFFSET + i], true));
                proof {
                    lemma_title_len_bounds(rom, i as int + 1);
                }
                return None;
            }
            proof {
                lemma_title_len_step(rom, i as int);
            }
            assert(spec_title_char_ok(rom[TITLE_OFFSET + i], true));
            // Append new character
            push_ascii(&mut name, c);
            i = i + 1;
        }
        Some(name)
    }

    /// Return the number of ROM banks for this ROM. Each bank is 16KB.
    pub fn rom_banks(&self) -> (r: Option<usize>)
        requires
            self@.data.len() > ROM_SIZE_OFFSET,
        ensures
            r == (match spec_rom_banks_for(self@.data[ROM_SIZE_OFFSET as int]) {
                Some(n) => Some(n as usize),
                None => None,
            }),
    {
        match rom_banks_for(self.data[ROM_SIZE_OFFSET]) {
            Some(n) => Some(n as usize),
            None => None,
        }
    }

    /// Return the number of RAM banks for this ROM along with the
    /// size of each bank in bytes.
    pub fn ram_banks(&self) -> (r: Option<(usize, usize)>)
        requires
            self@.data.len() > RAM_SIZE_OFFSET,
        ensures
            r == spec_ram_banks_for(self@.data[RAM_SIZE_OFFSET as int]),
    {
        ram_banks_for(self.data[RAM_SIZE_OFFSET])
    }

    /// Byte mapped at `offset`: bank 0 then the selected high bank
    pub fn get_byte(&self, offset: u16) -> (r: u8)
        requires
            spec_rom_addr(self@, offset) < self@.data.len(),
        ensures
            r == self@.data[spec_rom_addr(self@, offset)],
    {
        let off = offset as usize;
        if off < ROM_BANK_SIZE {
            self.data[off]
        } else {
            let len = self.data.len();
            assert(self.high_bank + off < len);
            self.data[self.high_bank + off]
        }
    }

    /// Handle a write: [0x2000, 0x7fff] selects the high bank, other
    /// writes are ignored
    pub fn set_byte(&mut self, offset: u16, val: u8)
        ensures
            0x2000 <= offset < 0x8000 ==> final(self)@ == (RomView {
                high_bank: spec_high_bank(val),
                ..old(self)@
            }),
            !(0x2000 <= offset < 0x8000) ==> final(self)@ == old(self)@,
    {
        if offset >= 0x2000 && offset < 0x8000 {
            // Select a new rom bank. Bank 0 can't be selected, it
            // defaults to 1
            let n: usize = if val == 0 {
                0
            } else {
                (val - 1) as usize
            };
            self.high_bank = ROM_BANK_SIZE * n;
        }
    }
}

} // verus!
