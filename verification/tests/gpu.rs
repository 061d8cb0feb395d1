use gb_rs::gpu::{Color, Gpu, Palette};

/// Make sure the palette conversion to and from register values works
/// as expected
#[test]
fn palette_conversion() {
    for i in 0u32..0x100 {
        let r = i as u8;

        let p = Palette::from_reg(r);
        assert!(p.into_reg() == r);
    }
}

/// Make sure color conversion to and from symbolic values works
#[test]
fn color_conversion() {
    for v in 0u8..4 {
        let c = Color::from_u8(v);

        assert!(c.value() == v);
    }
}

/// The palette 0b00_01_10_11 reverses the colors
#[test]
fn palette_transform_reverses() {
    let p = Palette::from_reg(0b00_01_10_11);
    assert_eq!(p.transform(Color::White), Color::Black);
    assert_eq!(p.transform(Color::LightGrey), Color::DarkGrey);
    assert_eq!(p.transform(Color::DarkGrey), Color::LightGrey);
    assert_eq!(p.transform(Color::Black), Color::White);
}

/// Scroll and window registers read back what was written
#[test]
fn gpu_register_readback() {
    let mut gpu = Gpu::new();
    gpu.set_scx(0x12);
    gpu.set_scy(0x34);
    gpu.set_wx(0x56);
    gpu.set_wy(0x78);
    gpu.set_lyc(0x9a);
    gpu.set_bgp(0xe4);
    assert_eq!(gpu.scx(), 0x12);
    assert_eq!(gpu.scy(), 0x34);
    assert_eq!(gpu.wx(), 0x56);
    assert_eq!(gpu.wy(), 0x78);
    assert_eq!(gpu.lyc(), 0x9a);
    assert_eq!(gpu.bgp(), 0xe4);
}

/// Video RAM reads back what was written
#[test]
fn gpu_vram_readback() {
    let mut gpu = Gpu::new();
    gpu.set_vram(0x0123, 0xab);
    assert_eq!(gpu.vram(0x0123), 0xab);
}

/// When more than 10 sprites are on a line, only the 10 first in OAM
/// order are displayed
#[test]
fn only_ten_sprites_per_line() {
    let mut gpu = Gpu::new();
    // Tile 1: every pixel of color 3
    for i in 0x10u16..0x20 {
        gpu.set_vram(i, 0xff);
    }
    // Identity sprite palette
    gpu.set_obp0(0xe4);
    // 11 sprites on line 0, side by side, drawn from right to left in
    // OAM order so that the last one is the leftmost
    for i in 0u16..11 {
        let x = 8 + 8 * (10 - i) as u8;
        gpu.set_oam(4 * i, 16);
        gpu.set_oam(4 * i + 1, x);
        gpu.set_oam(4 * i + 2, 1);
        gpu.set_oam(4 * i + 3, 0);
    }
    // Display and sprites on, background off
    gpu.set_lcdc(0x82);
    for _ in 0..(2 * 456 * 154) {
        gpu.step();
    }
    // Sprites 0 to 9 cover x = 8 to 87
    for x in 8u8..88 {
        assert_eq!(gpu.pixel(x, 0), Color::Black);
    }
    // Sprite 10, leftmost, isn't displayed
    for x in 0u8..8 {
        assert_ne!(gpu.pixel(x, 0), Color::Black);
    }
}

/// OAM bytes read back what was written; only the bits 7 to 4 of a
/// flags byte exist
#[test]
fn oam_readback() {
    let mut gpu = Gpu::new();
    gpu.set_oam(0x10, 0x55);
    gpu.set_oam(0x13, 0xff);
    assert_eq!(gpu.oam(0x10), 0x55);
    assert_eq!(gpu.oam(0x13), 0xf0);
    assert_eq!(gpu.oam(0x11), 0);
}

/// The interrupt enable bits of STAT read back; the low bits are read
/// only
#[test]
fn stat_readback() {
    let mut gpu = Gpu::new();
    gpu.set_stat(0x08);
    assert_eq!(gpu.stat() & 0x78, 0x08);
    gpu.set_stat(0x07);
    assert_eq!(gpu.stat() & 0x78, 0x00);
    gpu.set_stat(0x78);
    assert_eq!(gpu.stat() & 0x78, 0x78);
}
