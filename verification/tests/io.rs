use gb_rs::cartridge::Cartridge;
use gb_rs::gpu::Gpu;
use gb_rs::io::buttons::Buttons;
use gb_rs::io::ram::Ram;
use gb_rs::io::regs::Regs;
use gb_rs::io::rom::Rom;
use gb_rs::io::timer::{Divider, Timer};
use gb_rs::io::{Interconnect, Interrupt};
use gb_rs::spu::Spu;
use gb_rs::ui::{ButtonState, Buttons as UiButtons};

fn interconnect() -> Interconnect {
    let rom = vec![0u8; 0x8000];
    let cart = Cartridge::from_rom(rom);
    Interconnect::new(cart, Gpu::new(), Spu::new())
}

#[test]
fn work_ram_read_after_write() {
    let mut inter = interconnect();
    inter.set_byte(0xc123, 0x5a);
    assert_eq!(inter.get_byte(0xc123), 0x5a);
    // Another cell keeps its value
    assert_eq!(inter.get_byte(0xc124), 0xca);
}

#[test]
fn echo_ram_mirrors_work_ram() {
    let mut inter = interconnect();
    inter.set_byte(0xe010, 0x77);
    assert_eq!(inter.get_byte(0xc010), 0x77);
    inter.set_byte(0xc020, 0x33);
    assert_eq!(inter.get_byte(0xe020), 0x33);
}

#[test]
fn high_ram_and_ie_read_after_write() {
    let mut inter = interconnect();
    inter.set_byte(0xff90, 0x12);
    assert_eq!(inter.get_byte(0xff90), 0x12);
    inter.set_byte(0xffff, 0x1f);
    assert_eq!(inter.get_byte(0xffff), 0x1f);
}

#[test]
fn vram_read_after_write() {
    let mut inter = interconnect();
    inter.set_byte(0x8010, 0xab);
    assert_eq!(inter.get_byte(0x8010), 0xab);
}

#[test]
fn unusable_area_reads_zero() {
    let mut inter = interconnect();
    inter.set_byte(0xfea0, 0x42);
    assert_eq!(inter.get_byte(0xfea0), 0);
}

#[test]
fn interrupt_flags_read_high_bits_set() {
    let mut inter = interconnect();
    inter.set_byte(0xff0f, 0x00);
    assert_eq!(inter.get_byte(0xff0f), 0xe0);
}

#[test]
fn timer_interrupt_is_delivered_and_acked() {
    let mut inter = interconnect();
    // Enable the timer interrupt and raise it through IF
    inter.set_byte(0xffff, 0x04);
    inter.set_byte(0xff0f, 0x04);
    assert_eq!(inter.next_interrupt(), Some(Interrupt::Timer));
    assert_eq!(inter.next_interrupt_ack(), Some(Interrupt::Timer));
    assert_eq!(inter.next_interrupt(), None);
}

#[test]
fn disabled_interrupt_is_not_delivered() {
    let mut inter = interconnect();
    inter.set_byte(0xffff, 0x00);
    inter.set_byte(0xff0f, 0x04);
    assert_eq!(inter.next_interrupt(), None);
}

#[test]
fn timer_config_readback() {
    let mut t = Timer::new();
    t.set_config(0x05);
    assert_eq!(t.config(), 0x05);
    t.set_config(0x02);
    assert_eq!(t.config(), 0x02);
    t.set_config(0xff);
    assert_eq!(t.config(), 0x07);
}

#[test]
fn timer_counts_and_overflows() {
    let mut t = Timer::new();
    // Enabled, SysClk / 16
    t.set_config(0x05);
    t.set_modulo(0xf0);
    t.set_counter(0xff);
    for _ in 0..16 {
        t.step();
    }
    assert!(t.interrupt());
    assert_eq!(t.counter(), 0xf0);
    t.ack_interrupt();
    assert!(!t.interrupt());
}

#[test]
fn timer_divider_periods() {
    assert_eq!(Divider::from_field(0).period(), 1024);
    assert_eq!(Divider::from_field(1).period(), 16);
    assert_eq!(Divider::from_field(2).period(), 64);
    assert_eq!(Divider::from_field(3).period(), 256);
}

#[test]
fn timer_div_register() {
    let mut t = Timer::new();
    for _ in 0..512 {
        t.step();
    }
    assert_eq!(t.div(), 2);
    t.reset_div();
    assert_eq!(t.div(), 0);
}

#[test]
fn buttons_input_lines() {
    let mut b = Buttons::new();
    let mut pressed = UiButtons::new(ButtonState::Up);
    pressed.a = ButtonState::Down;
    pressed.up = ButtonState::Down;
    b.set_buttons(pressed);
    // Nothing selected: every line inactive
    b.set_input(0x30);
    assert_eq!(b.input(), 0xff);
    // Buttons selected (bit 5 low): A reads 0 on line 0
    b.set_input(0x10);
    assert_eq!(b.input(), 0xff - 0x20 - 0x01);
    // Directions selected (bit 4 low): Up reads 0 on line 2
    b.set_input(0x20);
    assert_eq!(b.input(), 0xff - 0x10 - 0x04);
}

#[test]
fn regs_readback() {
    let mut r = Regs::new();
    r.set_byte(0x42, 0x99);
    assert_eq!(r.get_byte(0x42), 0x99);
    r.reset();
    assert_eq!(r.get_byte(0x42), 0);
}

#[test]
fn ram_readback() {
    let mut r = Ram::new(0x100);
    assert_eq!(r.byte(0x10), 0xca);
    r.set_byte(0x10, 0x01);
    assert_eq!(r.byte(0x10), 0x01);
}

#[test]
fn rom_too_short_is_refused() {
    let data = vec![0u8; 0x4000];
    assert!(Rom::from_reader(&data).is_none());
}

#[test]
fn rom_name_and_banks() {
    let mut data = vec![0u8; 0x8000];
    data[0x134..0x138].copy_from_slice(b"TEST");
    let rom = Rom::from_reader(&data).unwrap();
    assert_eq!(rom.name(), Some(String::from("TEST")));
    assert_eq!(rom.rom_banks(), Some(2));
    assert_eq!(rom.get_byte(0x134), b'T');
}

#[test]
fn timer_ticks_once_per_period() {
    for phase in [0u32, 1, 500, 1023] {
        let mut t = Timer::new();
        // Enabled, SysClk / 1024
        t.set_config(0x04);
        for _ in 0..phase {
            t.step();
        }
        let c = t.counter();
        for _ in 0..1024 {
            t.step();
        }
        assert_eq!(t.counter(), c + 1);
    }
}
