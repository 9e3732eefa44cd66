use gameboy_cpu::registers::{ByteRegister, Flag, Registers, WordRegister};

fn test_u16_read(
    set_fn: &dyn Fn(&mut Registers, u16),
    get_h_fn: &dyn Fn(&Registers) -> u8,
    get_l_fn: &dyn Fn(&Registers) -> u8,
) {
    let mut registers = Registers::default();

    let h = 0x1200;
    let l = 0x0023;

    set_fn(&mut registers, h + l);

    assert_eq!(get_h_fn(&registers), (h >> 8) as u8);
    assert_eq!(get_l_fn(&registers), (l >> 0) as u8);
}

fn test_u16_write(
    h_set_fn: &dyn Fn(&mut Registers, u8),
    l_set_fn: &dyn Fn(&mut Registers, u8),
    get_fn: &dyn Fn(&Registers) -> u16,
) {
    let mut registers = Registers::default();

    let h = 0x12;
    let l = 0x23;

    h_set_fn(&mut registers, h);
    l_set_fn(&mut registers, l);

    let sum = ((h as u16) << 8) + l as u16;

    assert_eq!(get_fn(&registers), sum);
}

#[test]
fn bc_read() {
    test_u16_read(&Registers::set_bc, &Registers::b, &Registers::c);
}

#[test]
fn bc_write() {
    test_u16_write(&Registers::set_b, &Registers::set_c, &Registers::bc)
}

#[test]
fn de_read() {
    test_u16_read(&Registers::set_de, &Registers::d, &Registers::e);
}

#[test]
fn de_write() {
    test_u16_write(&Registers::set_d, &Registers::set_e, &Registers::de)
}

#[test]
fn hl_read() {
    test_u16_read(&Registers::set_hl, &Registers::h, &Registers::l);
}

#[test]
fn hl_write() {
    test_u16_write(&Registers::set_h, &Registers::set_l, &Registers::hl)
}

#[test]
fn default_is_all_zero() {
    let registers = Registers::default();

    assert_eq!(registers.a(), 0);
    assert_eq!(registers.bc(), 0);
    assert_eq!(registers.de(), 0);
    assert_eq!(registers.hl(), 0);
    assert_eq!(registers.sp(), 0);
    assert_eq!(registers.pc(), 0);
    assert_eq!(registers.af(), 0);
    assert_eq!(registers.flag, Flag::new(false, false, false, false));
    assert_eq!(Flag::default(), Flag::new(false, false, false, false));
}

#[test]
fn pair_written_reads_back() {
    for v in [0x0000u16, 0x0001, 0x00FF, 0x0100, 0x1234, 0x8000, 0xFFFF] {
        let mut registers = Registers::default();
        registers.set_bc(v);
        registers.set_de(v);
        registers.set_hl(v);
        registers.set_af(v);
        registers.set_sp(v);
        registers.set_pc(v);

        assert_eq!(registers.bc(), v);
        assert_eq!(registers.de(), v);
        assert_eq!(registers.hl(), v);
        assert_eq!(registers.af(), v & 0xFFF0);
        assert_eq!(registers.sp(), v);
        assert_eq!(registers.pc(), v);
    }
}

#[test]
fn af_read_packs_the_flags() {
    let mut registers = Registers::default();
    registers.set_a(0x12);

    registers.flag = Flag::new(true, false, false, false);
    assert_eq!(registers.af(), 0x1280);
    registers.flag = Flag::new(false, true, false, false);
    assert_eq!(registers.af(), 0x1240);
    registers.flag = Flag::new(false, false, true, false);
    assert_eq!(registers.af(), 0x1220);
    registers.flag = Flag::new(false, false, false, true);
    assert_eq!(registers.af(), 0x1210);
    registers.flag = Flag::new(true, true, true, true);
    assert_eq!(registers.af(), 0x12F0);
}

#[test]
fn af_write_restores_the_flags() {
    let mut registers = Registers::default();

    registers.set_af(0x34AF);
    assert_eq!(registers.a(), 0x34);
    assert_eq!(registers.flag, Flag::new(true, false, true, false));

    registers.set_af(0x5650);
    assert_eq!(registers.a(), 0x56);
    assert_eq!(registers.flag, Flag::new(false, true, false, true));
}

#[test]
fn flag_bits_and_from() {
    assert_eq!(Flag::new(true, false, true, false).bits(), 0xA0);
    assert_eq!(Flag::new(false, true, false, true).bits(), 0x50);
    assert_eq!(Flag::from(0xA0), Flag::new(true, false, true, false));
    assert_eq!(Flag::from(0x5F), Flag::new(false, true, false, true));
    assert_eq!(Flag::from(0x0F), Flag::new(false, false, false, false));

    for v in 0..=255u8 {
        assert_eq!(Flag::from(v).bits(), v & 0xF0);
    }
}

#[test]
fn flag_getters_and_setters() {
    let mut flag = Flag::default();

    flag.set_zero(true);
    assert_eq!(flag, Flag::new(true, false, false, false));
    assert!(flag.zero());
    flag.set_sub(true);
    assert_eq!(flag, Flag::new(true, true, false, false));
    assert!(flag.sub());
    flag.set_half_carry(true);
    assert_eq!(flag, Flag::new(true, true, true, false));
    assert!(flag.half_carry());
    flag.set_carry(true);
    assert_eq!(flag, Flag::new(true, true, true, true));
    assert!(flag.carry());
    flag.set_zero(false);
    assert!(!flag.zero());
}

#[test]
fn registers_by_name() {
    let mut registers = Registers::default();
    let bytes = [
        (ByteRegister::A, 1u8),
        (ByteRegister::B, 2),
        (ByteRegister::C, 3),
        (ByteRegister::D, 4),
        (ByteRegister::E, 5),
        (ByteRegister::H, 6),
        (ByteRegister::L, 7),
    ];
    for (reg, v) in bytes {
        registers.set_byte(reg, v);
    }
    for (reg, v) in bytes {
        assert_eq!(registers.byte(reg), v);
    }
    assert_eq!(registers.a(), 1);
    assert_eq!(registers.bc(), 0x0203);
    assert_eq!(registers.de(), 0x0405);
    assert_eq!(registers.hl(), 0x0607);
    assert_eq!(registers.word(WordRegister::BC), 0x0203);
    assert_eq!(registers.word(WordRegister::DE), 0x0405);
    assert_eq!(registers.word(WordRegister::HL), 0x0607);

    registers.set_word(WordRegister::SP, 0x1122);
    registers.set_word(WordRegister::PC, 0x3344);
    registers.set_word(WordRegister::AF, 0x55FF);
    registers.set_word(WordRegister::DE, 0x6677);
    assert_eq!(registers.sp(), 0x1122);
    assert_eq!(registers.pc(), 0x3344);
    assert_eq!(registers.word(WordRegister::AF), 0x55F0);
    assert_eq!(registers.d(), 0x66);
    assert_eq!(registers.e(), 0x77);
}
