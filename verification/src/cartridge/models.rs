//! Cartridge model specific emulation

use vstd::prelude::*;
use crate::cartridge::{Cartridge, CartridgeView, ROM_BANK_SIZE, RAM_BANK_SIZE};

verus! {

/// Kind of memory bank controller found in a cartridge
#[derive(Clone, Copy, PartialEq, Eq, Structural, Debug)]
pub enum ModelKind {
    /// No banking
    Mbc0,
    Mbc1,
    Mbc2,
    Mbc3,
    /// Game Boy Camera
    Camera,
}

/// Interface to model-specific operations
#[derive(Clone, Copy, Debug)]
pub struct Model {
    /// String identifier
    pub name: &'static str,
    /// Controller handling ROM writes and RAM accesses
    pub kind: ModelKind,
}

/// Cartridge types with a known controller
pub open spec fn spec_known_model(id: u8) -> bool {
    id == 0 || (0x01 <= id <= 0x03) || (0x05 <= id <= 0x06) || (0x0f <= id <= 0x13) || id == 0xfc
}

/// Controller of cartridge type `id`
pub open spec fn spec_model_kind(id: u8) -> ModelKind {
    if id == 0 {
        ModelKind::Mbc0
    } else if 0x01 <= id <= 0x03 {
        ModelKind::Mbc1
    } else if 0x05 <= id <= 0x06 {
        ModelKind::Mbc2
    } else if 0x0f <= id <= 0x13 {
        ModelKind::Mbc3
    } else {
        ModelKind::Camera
    }
}

/// Display name of a controller
pub open spec fn spec_kind_name(k: ModelKind) -> Seq<char> {
    match k {
        ModelKind::Mbc0 => "MBC0"@,
        ModelKind::Mbc1 => "MBC1"@,
        ModelKind::Mbc2 => "MBC2"@,
        ModelKind::Mbc3 => "MBC3"@,
        ModelKind::Camera => "GB Camera"@,
    }
}

/// True if cartridge type `id` has a known controller
pub fn known_model(id: u8) -> (r: bool)
    ensures
        r == spec_known_model(id),
{
    id == 0 || (0x01 <= id && id <= 0x03) || (0x05 <= id && id <= 0x06) || (0x0f <= id && id
        <= 0x13) || id == 0xfc
}

/// Return a cartridge model for a given cartridge type
pub fn from_id(id: u8) -> (m: Model)
    requires
        spec_known_model(id),
    ensures
        m.kind == spec_model_kind(id),
        m.name@ == spec_kind_name(m.kind),
{
    if id == 0 {
        Model { name: "MBC0", kind: ModelKind::Mbc0 }
    } else if 0x01 <= id && id <= 0x03 {
        Model { name: "MBC1", kind: ModelKind::Mbc1 }
    } else if 0x05 <= id && id <= 0x06 {
        Model { name: "MBC2", kind: ModelKind::Mbc2 }
    } else if 0x0f <= id && id <= 0x13 {
        Model { name: "MBC3", kind: ModelKind::Mbc3 }
    } else {
        Model { name: "GB Camera", kind: ModelKind::Camera }
    }
}

/// Value of RAM byte at absolute address `addr`: 0 outside of the RAM
pub open spec fn spec_ram_absolute(v: CartridgeView, addr: u32) -> u8 {
    if (addr as int) < v.ram.len() {
        v.ram[addr as int]
    } else {
        0
    }
}

/// RAM read at absolute address `addr`. The camera sensor image area
/// reads as an unwritten image (all bits set).
pub open spec fn spec_read_ram(v: CartridgeView, addr: u32) -> u8 {
    if v.model.kind == ModelKind::Camera && 0x100 <= addr < 0x1000 {
        0xff
    } else {
        spec_ram_absolute(v, addr)
    }
}

/// RAM write at absolute address `addr`: ignored outside of the RAM
pub open spec fn spec_write_ram(v: CartridgeView, addr: u32, val: u8) -> CartridgeView {
    if (addr as int) < v.ram.len() {
        CartridgeView { ram: v.ram.update(addr as int, val), ..v }
    } else {
        v
    }
}

/// Default bank reconfiguration: bank 0 can't be selected, it maps
/// bank 1
pub open spec fn spec_set_rom_bank(v: CartridgeView, bank: u8) -> CartridgeView {
    CartridgeView {
        rom_bank: bank,
        rom_offset: (ROM_BANK_SIZE * (if bank == 0 { 0 } else { bank - 1 })) as i32,
        ..v
    }
}

/// MBC1 bank number actually mapped for requested bank `bank`
pub open spec fn spec_mbc1_bank(bank: u8, rom_banks: u8) -> u8 {
    let b = if bank & 0x1f != 0 {
        bank
    } else {
        bank | 1
    };
    b & ((rom_banks - 1) as u8)
}

/// MBC1 bank reconfiguration
pub open spec fn spec_mbc1_set_rom_bank(v: CartridgeView, bank: u8) -> CartridgeView {
    CartridgeView {
        rom_bank: bank,
        rom_offset: (ROM_BANK_SIZE * (spec_mbc1_bank(bank, v.rom_banks) - 1)) as i32,
        ..v
    }
}

/// Write protection after writing `val` in [0x0000, 0x1fff]: a low
/// nibble 0xa removes it
pub open spec fn spec_wp_of(val: u8) -> bool {
    val % 16 != 0xa
}

/// RAM offset of RAM bank `bank`
pub open spec fn spec_ram_offset(bank: u8) -> u32 {
    (bank * RAM_BANK_SIZE) as u32
}

/// ROM write: handled by the memory bank controller
#[verifier::opaque]
pub open spec fn spec_write_rom(v: CartridgeView, offset: u16, val: u8) -> CartridgeView {
    match v.model.kind {
        ModelKind::Mbc0 => v,
        ModelKind::Mbc1 => if offset <= 0x1fff {
            CartridgeView { ram_wp: spec_wp_of(val), ..v }
        } else if offset <= 0x3fff {
            spec_mbc1_set_rom_bank(v, ((v.rom_bank / 32) * 32 + val % 32) as u8)
        } else if offset <= 0x5fff {
            if v.bank_ram {
                CartridgeView { ram_offset: spec_ram_offset(val % 4), ..v }
            } else {
                spec_mbc1_set_rom_bank(
                    v,
                    ((v.rom_bank / 128) * 128 + v.rom_bank % 32 + (val % 4) * 32) as u8,
                )
            }
        } else if offset <= 0x7fff {
            CartridgeView { bank_ram: val % 2 == 1, ..v }
        } else {
            v
        },
        ModelKind::Mbc2 => if offset <= 0x1fff {
            CartridgeView { ram_wp: spec_wp_of(val), ..v }
        } else if offset <= 0x3fff {
            spec_set_rom_bank(v, val % 16)
        } else {
            v
        },
        ModelKind::Mbc3 => if offset <= 0x1fff {
            CartridgeView { ram_wp: spec_wp_of(val), ..v }
        } else if offset <= 0x3fff {
            spec_set_rom_bank(v, val % 128)
        } else if offset <= 0x5fff {
            CartridgeView { ram_offset: spec_ram_offset(val), ..v }
        } else {
            v
        },
        ModelKind::Camera => if offset <= 0x1fff {
            CartridgeView { ram_wp: false, ..v }
        } else if offset <= 0x3fff {
            spec_set_rom_bank(v, val % 128)
        } else if offset <= 0x5fff {
            CartridgeView { ram_offset: spec_ram_offset(val), ..v }
        } else {
            v
        },
    }
}

/// Default implementation of write_ram, suitable for most cartridges
pub fn write_ram(cart: &mut Cartridge, addr: u32, val: u8)
    requires
        old(cart).wf(),
    ensures
        final(cart).wf(),
        final(cart)@ == spec_write_ram(old(cart)@, addr, val),
{
    cart.set_ram_byte_absolute(addr, val);
}

/// Default implementation of read_ram, suitable for most cartridges
pub fn read_ram(cart: &Cartridge, addr: u32) -> (r: u8)
    ensures
        r == spec_ram_absolute(cart@, addr),
{
    cart.ram_byte_absolute(addr)
}

/// Default implementation of bank reconfiguration
pub fn set_rom_bank(cart: &mut Cartridge, bank: u8)
    requires
        old(cart).wf(),
    ensures
        final(cart).wf(),
        final(cart)@ == spec_set_rom_bank(old(cart)@, bank),
{
    cart.set_rom_bank(bank);
    // The offset is added to the address of the CPU access. This
    // bankable ROM is just after the bank0 it means there's always a
    // 1 bank offset already in the address, so 1 is substracted here.
    let n: i32 = if bank == 0 {
        0
    } else {
        (bank - 1) as i32
    };
    cart.set_rom_offset(ROM_BANK_SIZE * n);
}

/// ROM write on a cartridge without controller
pub fn mbc0_write_rom(cart: &mut Cartridge, offset: u16, val: u8)
    requires
        old(cart).wf(),
    ensures
        final(cart).wf(),
        final(cart)@ == old(cart)@,
{
}

/// MBC1 ROM write
pub fn mbc1_write_rom(cart: &mut Cartridge, offset: u16, val: u8)
    requires
        old(cart).wf(),
        old(cart)@.model.kind == ModelKind::Mbc1,
    ensures
        final(cart).wf(),
        final(cart)@ == spec_write_rom(old(cart)@, offset, val),
{
    proof {
        reveal(spec_write_rom);
    }
    if offset <= 0x1fff {
        // Writing a low nibble 0xa to anywhere in that address range
        // removes RAM write protect, All other values enable it.
        cart.set_ram_wp(val % 16 != 0xa);
    } else if offset <= 0x3fff {
        // Select a new ROM bank, bits [4:0]
        let cur_bank = (cart.rom_bank() / 32) * 32;
        mbc1_set_rom_bank(cart, cur_bank + val % 32);
    } else if offset <= 0x5fff {
        if cart.bank_ram() {
            // Select a new RAM bank
            cart.set_ram_bank(val % 4);
        } else {
            // Select a new ROM bank, bits [6:5]
            let b = cart.rom_bank();
            let cur_bank = (b / 128) * 128 + b % 32;
            mbc1_set_rom_bank(cart, cur_bank + (val % 4) * 32);
        }
    } else if offset <= 0x7fff {
        // Switch RAM/ROM banking mode
        cart.set_bank_ram(val % 2 == 1);
    }
}

/// MBC1 implementation of bank reconfiguration (the algorithm comes
/// from gambatte): a bank with null low bits maps the next one and
/// the bank number wraps around the number of banks, which is
/// assumed to be a power of two.
pub fn mbc1_set_rom_bank(cart: &mut Cartridge, bank: u8)
    requires
        old(cart).wf(),
    ensures
        final(cart).wf(),
        final(cart)@ == spec_mbc1_set_rom_bank(old(cart)@, bank),
{
    cart.set_rom_bank(bank);
    let b = if bank & 0x1f != 0 {
        bank
    } else {
        bank | 1
    };
    let b = b & (cart.rom_banks() - 1);
    // Same as set_rom_bank: there's already a one bank offset in the
    // CPU address when accessing bankable ROM.
    let b = (b as i32) - 1;
    cart.set_rom_offset(ROM_BANK_SIZE * b);
}

/// MBC2 ROM write
pub fn mbc2_write_rom(cart: &mut Cartridge, offset: u16, val: u8)
    requires
        old(cart).wf(),
        old(cart)@.model.kind == ModelKind::Mbc2,
    ensures
        final(cart).wf(),
        final(cart)@ == spec_write_rom(old(cart)@, offset, val),
{
    proof {
        reveal(spec_write_rom);
    }
    if offset <= 0x1fff {
        cart.set_ram_wp(val % 16 != 0xa);
    } else if offset <= 0x3fff {
        set_rom_bank(cart, val % 16);
    }
}

/// MBC3 ROM write. The RTC registers are not handled.
pub fn mbc3_write_rom(cart: &mut Cartridge, offset: u16, val: u8)
    requires
        old(cart).wf(),
        old(cart)@.model.kind == ModelKind::Mbc3,
    ensures
        final(cart).wf(),
        final(cart)@ == spec_write_rom(old(cart)@, offset, val),
{
    proof {
        reveal(spec_write_rom);
    }
    if offset <= 0x1fff {
        cart.set_ram_wp(val % 16 != 0xa);
    } else if offset <= 0x3fff {
        // Select a new ROM bank
        set_rom_bank(cart, val % 128);
    } else if offset <= 0x5fff {
        // Select a new RAM bank
        cart.set_ram_bank(val);
    }
}

/// Game Boy Camera ROM write: any write to [0x0000, 0x1fff] removes
/// the RAM write protection
pub fn camera_write_rom(cart: &mut Cartridge, offset: u16, val: u8)
    requires
        old(cart).wf(),
        old(cart)@.model.kind == ModelKind::Camera,
    ensures
        final(cart).wf(),
        final(cart)@ == spec_write_rom(old(cart)@, offset, val),
{
    proof {
        reveal(spec_write_rom);
    }
    if offset <= 0x1fff {
        cart.set_ram_wp(false);
    } else if offset <= 0x3fff {
        set_rom_bank(cart, val % 128);
    } else if offset <= 0x5fff {
        cart.set_ram_bank(val);
    }
}

/// Game Boy Camera RAM read: the sensor image area reads as an
/// unwritten image
pub fn camera_read_ram(cart: &Cartridge, addr: u32) -> (r: u8)
    requires
        cart@.model.kind == ModelKind::Camera,
    ensures
        r == spec_read_ram(cart@, addr),
{
    if addr >= 0x100 && addr < 0x1000 {
        0xff
    } else {
        cart.ram_byte_absolute(addr)
    }
}

} // verus!
