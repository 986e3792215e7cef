use gb_core::registers::Registers;

#[test]
fn pair_reads_its_two_bytes() {
    let mut r = Registers::new();
    r.b = 0x12;
    r.c = 0x34;
    assert_eq!(r.get_bc(), 0x1234);
    r.d = 0x12;
    r.e = 0x34;
    assert_eq!(r.get_de(), 0x1234);
    r.h = 0x12;
    r.l = 0x34;
    assert_eq!(r.get_hl(), 0x1234);
    r.a = 0x12;
    r.f = 0x34;
    assert_eq!(r.get_af(), 0x1234);
}

#[test]
fn byte_write_shows_through_pair() {
    let mut r = Registers::new();
    r.set_hl(0xC000);
    r.l = 0x05;
    assert_eq!(r.get_hl(), 0xC005);
    r.h = 0xFF;
    assert_eq!(r.get_hl(), 0xFF05);
}

#[test]
fn pair_setters_split_high_then_low() {
    let mut r = Registers::new();
    r.set_bc(0x1234);
    assert_eq!((r.b, r.c), (0x12, 0x34));
    r.set_de(0x1234);
    assert_eq!((r.d, r.e), (0x12, 0x34));
    r.set_hl(0x1234);
    assert_eq!((r.h, r.l), (0x12, 0x34));
    r.set_af(0x1234);
    assert_eq!((r.a, r.f), (0x12, 0x34));
    assert_eq!(r.get_bc(), 0x1234);
}

#[test]
fn pair_setter_leaves_other_registers() {
    let mut r = Registers::new();
    r.a = 7;
    r.pc = 0x0100;
    r.sp = 0xFFFE;
    r.set_bc(0xBEEF);
    assert_eq!(r.a, 7);
    assert_eq!(r.pc, 0x0100);
    assert_eq!(r.sp, 0xFFFE);
    assert_eq!(r.get_de(), 0);
    assert_eq!(r.get_hl(), 0);
}
