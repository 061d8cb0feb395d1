use gb_rs::spu::Spu;

#[test]
fn wave_ram() {
    let mut spu = Spu::new();

    // Enable SPU
    spu.set_nr52(0x80);

    for v in 0u16..0x100 {
        let v = v as u8;

        for i in 0u8..16 {
            spu.set_nr3_ram(i, v);
            let r = spu.nr3_ram(i);

            assert!(r == v);
        }
    }
}

#[test]
fn nr52() {
    let mut spu = Spu::new();

    spu.set_nr52(0);

    assert!(spu.nr52() == 0x70);

    spu.set_nr52(0xff);

    assert!(spu.nr52() == 0xf0);
}

/// Register readback: write-only fields read as 1s
#[test]
fn readback_nr10() {
    let mut spu = Spu::new();
    spu.set_nr52(0x80);
    for v in 0u16..0x100 {
        let v = v as u8;
        spu.set_nr10(v);
        assert_eq!(spu.nr10(), v | 0x80);
    }
}

/// Disabling the SPU clears the register and writes are ignored
/// while it is disabled
#[test]
fn reset_nr10() {
    let mut spu = Spu::new();
    spu.set_nr52(0x80);
    spu.set_nr10(0xff);
    spu.set_nr52(0x00);
    spu.set_nr10(0xff);
    spu.set_nr52(0x80);
    assert_eq!(spu.nr10(), 0x80);
}

/// Register readback: write-only fields read as 1s
#[test]
fn readback_nr11() {
    let mut spu = Spu::new();
    spu.set_nr52(0x80);
    for v in 0u16..0x100 {
        let v = v as u8;
        spu.set_nr11(v);
        assert_eq!(spu.nr11(), v | 0x3f);
    }
}

/// Disabling the SPU clears the register and writes are ignored
/// while it is disabled
#[test]
fn reset_nr11() {
    let mut spu = Spu::new();
    spu.set_nr52(0x80);
    spu.set_nr11(0xff);
    spu.set_nr52(0x00);
    spu.set_nr11(0xff);
    spu.set_nr52(0x80);
    assert_eq!(spu.nr11(), 0x3f);
}

/// Register readback: write-only fields read as 1s
#[test]
fn readback_nr12() {
    let mut spu = Spu::new();
    spu.set_nr52(0x80);
    for v in 0u16..0x100 {
        let v = v as u8;
        spu.set_nr12(v);
        assert_eq!(spu.nr12(), v | 0x00);
    }
}

/// Disabling the SPU clears the register and writes are ignored
/// while it is disabled
#[test]
fn reset_nr12() {
    let mut spu = Spu::new();
    spu.set_nr52(0x80);
    spu.set_nr12(0xff);
    spu.set_nr52(0x00);
    spu.set_nr12(0xff);
    spu.set_nr52(0x80);
    assert_eq!(spu.nr12(), 0x00);
}

/// Register readback: write-only fields read as 1s
#[test]
fn readback_nr13() {
    let mut spu = Spu::new();
    spu.set_nr52(0x80);
    for v in 0u16..0x100 {
        let v = v as u8;
        spu.set_nr13(v);
        assert_eq!(spu.nr13(), v | 0xff);
    }
}

/// Disabling the SPU clears the register and writes are ignored
/// while it is disabled
#[test]
fn reset_nr13() {
    let mut spu = Spu::new();
    spu.set_nr52(0x80);
    spu.set_nr13(0xff);
    spu.set_nr52(0x00);
    spu.set_nr13(0xff);
    spu.set_nr52(0x80);
    assert_eq!(spu.nr13(), 0xff);
}

/// Register readback: write-only fields read as 1s
#[test]
fn readback_nr14() {
    let mut spu = Spu::new();
    spu.set_nr52(0x80);
    for v in 0u16..0x100 {
        let v = v as u8;
        spu.set_nr14(v);
        assert_eq!(spu.nr14(), v | 0xbf);
    }
}

/// Disabling the SPU clears the register and writes are ignored
/// while it is disabled
#[test]
fn reset_nr14() {
    let mut spu = Spu::new();
    spu.set_nr52(0x80);
    spu.set_nr14(0xff);
    spu.set_nr52(0x00);
    spu.set_nr14(0xff);
    spu.set_nr52(0x80);
    assert_eq!(spu.nr14(), 0xbf);
}

/// Register readback: write-only fields read as 1s
#[test]
fn readback_nr21() {
    let mut spu = Spu::new();
    spu.set_nr52(0x80);
    for v in 0u16..0x100 {
        let v = v as u8;
        spu.set_nr21(v);
        assert_eq!(spu.nr21(), v | 0x3f);
    }
}

/// Disabling the SPU clears the register and writes are ignored
/// while it is disabled
#[test]
fn reset_nr21() {
    let mut spu = Spu::new();
    spu.set_nr52(0x80);
    spu.set_nr21(0xff);
    spu.set_nr52(0x00);
    spu.set_nr21(0xff);
    spu.set_nr52(0x80);
    assert_eq!(spu.nr21(), 0x3f);
}

/// Register readback: write-only fields read as 1s
#[test]
fn readback_nr22() {
    let mut spu = Spu::new();
    spu.set_nr52(0x80);
    for v in 0u16..0x100 {
        let v = v as u8;
        spu.set_nr22(v);
        assert_eq!(spu.nr22(), v | 0x00);
    }
}

/// Disabling the SPU clears the register and writes are ignored
/// while it is disabled
#[test]
fn reset_nr22() {
    let mut spu = Spu::new();
    spu.set_nr52(0x80);
    spu.set_nr22(0xff);
    spu.set_nr52(0x00);
    spu.set_nr22(0xff);
    spu.set_nr52(0x80);
    assert_eq!(spu.nr22(), 0x00);
}

/// Register readback: write-only fields read as 1s
#[test]
fn readback_nr23() {
    let mut spu = Spu::new();
    spu.set_nr52(0x80);
    for v in 0u16..0x100 {
        let v = v as u8;
        spu.set_nr23(v);
        assert_eq!(spu.nr23(), v | 0xff);
    }
}

/// Disabling the SPU clears the register and writes are ignored
/// while it is disabled
#[test]
fn reset_nr23() {
    let mut spu = Spu::new();
    spu.set_nr52(0x80);
    spu.set_nr23(0xff);
    spu.set_nr52(0x00);
    spu.set_nr23(0xff);
    spu.set_nr52(0x80);
    assert_eq!(spu.nr23(), 0xff);
}

/// Register readback: write-only fields read as 1s
#[test]
fn readback_nr24() {
    let mut spu = Spu::new();
    spu.set_nr52(0x80);
    for v in 0u16..0x100 {
        let v = v as u8;
        spu.set_nr24(v);
        assert_eq!(spu.nr24(), v | 0xbf);
    }
}

/// Disabling the SPU clears the register and writes are ignored
/// while it is disabled
#[test]
fn reset_nr24() {
    let mut spu = Spu::new();
    spu.set_nr52(0x80);
    spu.set_nr24(0xff);
    spu.set_nr52(0x00);
    spu.set_nr24(0xff);
    spu.set_nr52(0x80);
    assert_eq!(spu.nr24(), 0xbf);
}

/// Register readback: write-only fields read as 1s
#[test]
fn readback_nr30() {
    let mut spu = Spu::new();
    spu.set_nr52(0x80);
    for v in 0u16..0x100 {
        let v = v as u8;
        spu.set_nr30(v);
        assert_eq!(spu.nr30(), v | 0x7f);
    }
}

/// Disabling the SPU clears the register and writes are ignored
/// while it is disabled
#[test]
fn reset_nr30() {
    let mut spu = Spu::new();
    spu.set_nr52(0x80);
    spu.set_nr30(0xff);
    spu.set_nr52(0x00);
    spu.set_nr30(0xff);
    spu.set_nr52(0x80);
    assert_eq!(spu.nr30(), 0x7f);
}

/// Register readback: write-only fields read as 1s
#[test]
fn readback_nr31() {
    let mut spu = Spu::new();
    spu.set_nr52(0x80);
    for v in 0u16..0x100 {
        let v = v as u8;
        spu.set_nr31(v);
        assert_eq!(spu.nr31(), v | 0xff);
    }
}

/// Disabling the SPU clears the register and writes are ignored
/// while it is disabled
#[test]
fn reset_nr31() {
    let mut spu = Spu::new();
    spu.set_nr52(0x80);
    spu.set_nr31(0xff);
    spu.set_nr52(0x00);
    spu.set_nr31(0xff);
    spu.set_nr52(0x80);
    assert_eq!(spu.nr31(), 0xff);
}

/// Register readback: write-only fields read as 1s
#[test]
fn readback_nr32() {
    let mut spu = Spu::new();
    spu.set_nr52(0x80);
    for v in 0u16..0x100 {
        let v = v as u8;
        spu.set_nr32(v);
        assert_eq!(spu.nr32(), v | 0x9f);
    }
}

/// Disabling the SPU clears the register and writes are ignored
/// while it is disabled
#[test]
fn reset_nr32() {
    let mut spu = Spu::new();
    spu.set_nr52(0x80);
    spu.set_nr32(0xff);
    spu.set_nr52(0x00);
    spu.set_nr32(0xff);
    spu.set_nr52(0x80);
    assert_eq!(spu.nr32(), 0x9f);
}

/// Register readback: write-only fields read as 1s
#[test]
fn readback_nr33() {
    let mut spu = Spu::new();
    spu.set_nr52(0x80);
    for v in 0u16..0x100 {
        let v = v as u8;
        spu.set_nr33(v);
        assert_eq!(spu.nr33(), v | 0xff);
    }
}

/// Disabling the SPU clears the register and writes are ignored
/// while it is disabled
#[test]
fn reset_nr33() {
    let mut spu = Spu::new();
    spu.set_nr52(0x80);
    spu.set_nr33(0xff);
    spu.set_nr52(0x00);
    spu.set_nr33(0xff);
    spu.set_nr52(0x80);
    assert_eq!(spu.nr33(), 0xff);
}

/// Register readback: write-only fields read as 1s
#[test]
fn readback_nr34() {
    let mut spu = Spu::new();
    spu.set_nr52(0x80);
    for v in 0u16..0x100 {
        let v = v as u8;
        spu.set_nr34(v);
        assert_eq!(spu.nr34(), v | 0xbf);
    }
}

/// Disabling the SPU clears the register and writes are ignored
/// while it is disabled
#[test]
fn reset_nr34() {
    let mut spu = Spu::new();
    spu.set_nr52(0x80);
    spu.set_nr34(0xff);
    spu.set_nr52(0x00);
    spu.set_nr34(0xff);
    spu.set_nr52(0x80);
    assert_eq!(spu.nr34(), 0xbf);
}

/// Register readback: write-only fields read as 1s
#[test]
fn readback_nr41() {
    let mut spu = Spu::new();
    spu.set_nr52(0x80);
    for v in 0u16..0x100 {
        let v = v as u8;
        spu.set_nr41(v);
        assert_eq!(spu.nr41(), v | 0xff);
    }
}

/// Disabling the SPU clears the register and writes are ignored
/// while it is disabled
#[test]
fn reset_nr41() {
    let mut spu = Spu::new();
    spu.set_nr52(0x80);
    spu.set_nr41(0xff);
    spu.set_nr52(0x00);
    spu.set_nr41(0xff);
    spu.set_nr52(0x80);
    assert_eq!(spu.nr41(), 0xff);
}

/// Register readback: write-only fields read as 1s
#[test]
fn readback_nr42() {
    let mut spu = Spu::new();
    spu.set_nr52(0x80);
    for v in 0u16..0x100 {
        let v = v as u8;
        spu.set_nr42(v);
        assert_eq!(spu.nr42(), v | 0x00);
    }
}

/// Disabling the SPU clears the register and writes are ignored
/// while it is disabled
#[test]
fn reset_nr42() {
    let mut spu = Spu::new();
    spu.set_nr52(0x80);
    spu.set_nr42(0xff);
    spu.set_nr52(0x00);
    spu.set_nr42(0xff);
    spu.set_nr52(0x80);
    assert_eq!(spu.nr42(), 0x00);
}

/// Register readback: write-only fields read as 1s
#[test]
fn readback_nr43() {
    let mut spu = Spu::new();
    spu.set_nr52(0x80);
    for v in 0u16..0x100 {
        let v = v as u8;
        spu.set_nr43(v);
        assert_eq!(spu.nr43(), v | 0x00);
    }
}

/// Disabling the SPU clears the register and writes are ignored
/// while it is disabled
#[test]
fn reset_nr43() {
    let mut spu = Spu::new();
    spu.set_nr52(0x80);
    spu.set_nr43(0xff);
    spu.set_nr52(0x00);
    spu.set_nr43(0xff);
    spu.set_nr52(0x80);
    assert_eq!(spu.nr43(), 0x00);
}

/// Register readback: write-only fields read as 1s
#[test]
fn readback_nr44() {
    let mut spu = Spu::new();
    spu.set_nr52(0x80);
    for v in 0u16..0x100 {
        let v = v as u8;
        spu.set_nr44(v);
        assert_eq!(spu.nr44(), v | 0xbf);
    }
}

/// Disabling the SPU clears the register and writes are ignored
/// while it is disabled
#[test]
fn reset_nr44() {
    let mut spu = Spu::new();
    spu.set_nr52(0x80);
    spu.set_nr44(0xff);
    spu.set_nr52(0x00);
    spu.set_nr44(0xff);
    spu.set_nr52(0x80);
    assert_eq!(spu.nr44(), 0xbf);
}

/// Register readback: write-only fields read as 1s
#[test]
fn readback_nr50() {
    let mut spu = Spu::new();
    spu.set_nr52(0x80);
    for v in 0u16..0x100 {
        let v = v as u8;
        spu.set_nr50(v);
        assert_eq!(spu.nr50(), v | 0x00);
    }
}

/// Disabling the SPU clears the register and writes are ignored
/// while it is disabled
#[test]
fn reset_nr50() {
    let mut spu = Spu::new();
    spu.set_nr52(0x80);
    spu.set_nr50(0xff);
    spu.set_nr52(0x00);
    spu.set_nr50(0xff);
    spu.set_nr52(0x80);
    assert_eq!(spu.nr50(), 0x00);
}

/// Register readback: write-only fields read as 1s
#[test]
fn readback_nr51() {
    let mut spu = Spu::new();
    spu.set_nr52(0x80);
    for v in 0u16..0x100 {
        let v = v as u8;
        spu.set_nr51(v);
        assert_eq!(spu.nr51(), v | 0x00);
    }
}

/// Disabling the SPU clears the register and writes are ignored
/// while it is disabled
#[test]
fn reset_nr51() {
    let mut spu = Spu::new();
    spu.set_nr52(0x80);
    spu.set_nr51(0xff);
    spu.set_nr52(0x00);
    spu.set_nr51(0xff);
    spu.set_nr52(0x80);
    assert_eq!(spu.nr51(), 0x00);
}

/// Writing through the register map reaches the same registers
#[test]
fn write_register_map() {
    let mut spu = Spu::new();
    spu.write_register(0x26, 0x80);
    assert_eq!(spu.nr52() & 0x80, 0x80);
    spu.write_register(0x30, 0x5a);
    assert_eq!(spu.nr3_ram(0), 0x5a);
    spu.write_register(0x24, 0x77);
    assert_eq!(spu.nr50(), 0x77);
}
