//! What the memory bank controllers map into the CPU address space

use vstd::prelude::*;
use crate::cartridge::{CartridgeView, spec_rom_byte};
use crate::cartridge::models::{ModelKind, spec_write_rom};

verus! {

/// Byte `a` of the ROM image; bytes past its end read as 0xff
pub open spec fn spec_rom_at(rom: Seq<u8>, a: int) -> u8 {
    if 0 <= a < rom.len() {
        rom[a]
    } else {
        0xff
    }
}

/// Bank 0 is always mapped at 0x0000-0x3fff.
pub proof fn lemma_fixed_bank(v: CartridgeView, k: u16)
    requires
        k < 0x4000,
    ensures
        spec_rom_byte(v, k) == spec_rom_at(v.rom, k as int),
{
}

/// MBC3 and camera cartridges select the ROM bank mapped at
/// 0x4000-0x7fff with the 7 low bits of a value written to
/// 0x2000-0x3fff; bank 0 maps bank 1 instead. Byte `k` of that window
/// is then byte `k` of the selected bank.
pub proof fn lemma_bank_select_7_bits(v: CartridgeView, offset: u16, val: u8, k: int)
    requires
        v.model.kind == ModelKind::Mbc3 || v.model.kind == ModelKind::Camera,
        0x2000 <= offset <= 0x3fff,
        0 <= k < 0x4000,
    ensures
        ({
            let bank = if val % 128 == 0 {
                1
            } else {
                val % 128
            };
            spec_rom_byte(spec_write_rom(v, offset, val), (0x4000 + k) as u16) == spec_rom_at(
                v.rom,
                bank * 0x4000 + k,
            )
        }),
{
    reveal(spec_write_rom);
}

/// MBC2 cartridges select the ROM bank with the 4 low bits of a value
/// written to 0x2000-0x3fff; bank 0 maps bank 1 instead.
pub proof fn lemma_bank_select_mbc2(v: CartridgeView, offset: u16, val: u8, k: int)
    requires
        v.model.kind == ModelKind::Mbc2,
        0x2000 <= offset <= 0x3fff,
        0 <= k < 0x4000,
    ensures
        ({
            let bank = if val % 16 == 0 {
                1
            } else {
                val % 16
            };
            spec_rom_byte(spec_write_rom(v, offset, val), (0x4000 + k) as u16) == spec_rom_at(
                v.rom,
                bank * 0x4000 + k,
            )
        }),
{
    reveal(spec_write_rom);
}

/// MBC1 cartridges with 32 banks or more, while the upper bank bits
/// are 0, select the ROM bank with the 5 low bits of a value written
/// to 0x2000-0x3fff; bank 0 maps bank 1 instead.
pub proof fn lemma_bank_select_mbc1(v: CartridgeView, offset: u16, val: u8, k: int)
    requires
        v.model.kind == ModelKind::Mbc1,
        v.rom_banks == 32 || v.rom_banks == 64 || v.rom_banks == 128,
        v.rom_bank < 32,
        0x2000 <= offset <= 0x3fff,
        0 <= k < 0x4000,
    ensures
        ({
            let bank = if val % 32 == 0 {
                1
            } else {
                val % 32
            };
            spec_rom_byte(spec_write_rom(v, offset, val), (0x4000 + k) as u16) == spec_rom_at(
                v.rom,
                bank * 0x4000 + k,
            )
        }),
{
    reveal(spec_write_rom);
    let b = (val % 32) as u8;
    let rb = v.rom_banks;
    assert(b < 32 ==> (if b & 0x1f != 0 { b } else { b | 1 }) & ((rb - 1) as u8) == (if b == 0 {
        1u8
    } else {
        b
    })) by (bit_vector)
        requires
            rb == 32 || rb == 64 || rb == 128,
    ;
}

/// Writing a value whose low nibble is 0xa to 0x0000-0x1fff enables
/// writes to the cartridge RAM on MBC1, MBC2 and MBC3 cartridges; any
/// other value protects it.
pub proof fn lemma_ram_write_enable(v: CartridgeView, offset: u16, val: u8)
    requires
        v.model.kind == ModelKind::Mbc1 || v.model.kind == ModelKind::Mbc2 || v.model.kind
            == ModelKind::Mbc3,
        offset <= 0x1fff,
    ensures
        spec_write_rom(v, offset, val).ram_wp == (val % 16 != 0xa),
        spec_write_rom(v, offset, val).rom == v.rom,
{
    reveal(spec_write_rom);
}

} // verus!
