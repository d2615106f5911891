use rustyboy::register::Registers;

#[test]
fn boot_values() {
    let r = Registers::new();
    assert_eq!(r.af(), 0x1180);
    assert_eq!(r.bc(), 0x0000);
    assert_eq!(r.de(), 0xFF56);
    assert_eq!(r.hl(), 0x000D);
    assert_eq!(r.pc, 0x0100);
    assert_eq!(r.sp, 0xFFFE);
}

#[test]
fn pairs_round_trip() {
    let mut r = Registers::new();
    r.set_bc(0x1234);
    assert_eq!((r.b, r.c), (0x12, 0x34));
    assert_eq!(r.bc(), 0x1234);
    r.set_de(0xABCD);
    assert_eq!(r.de(), 0xABCD);
    r.set_hl(0x00FF);
    assert_eq!((r.h, r.l), (0x00, 0xFF));
    // Bits 3-0 of the flag register stay zero.
    r.set_af(0x12FF);
    assert_eq!((r.a, r.f), (0x12, 0xF0));
    assert_eq!(r.af(), 0x12F0);
}

#[test]
fn flags_set_and_clear() {
    let mut r = Registers::new();
    r.f = 0;
    r.set_zero(1);
    assert!(r.check_zero());
    assert_eq!(r.f, 0x80);
    r.set_addsub(1);
    r.set_halfcarry(1);
    r.set_carry(1);
    assert_eq!(r.f, 0xF0);
    assert!(r.check_addsub() && r.check_halfcarry() && r.check_carry());
    r.set_halfcarry(0);
    assert_eq!(r.f, 0xD0);
    assert!(!r.check_halfcarry());
    // Any value other than 1 clears the flag.
    r.set_zero(2);
    assert!(!r.check_zero());
    assert_eq!(r.f, 0x50);
}
