use gameboy_cpu::cpu::Cpu;
use gameboy_cpu::mmu::Error;
use gameboy_cpu::opcode::load_16_bit::{ld_a16_sp, ld_hl_sp_n, ld_sp_hl};
use gameboy_cpu::opcode::table::{Cycle, OpLength};

#[test]
fn test_ld_sp_hl() {
    let reg_hl = 0x12;

    let expected_sp = reg_hl;

    let mut actual_cpu = Cpu::default();
    actual_cpu.registers.set_hl(reg_hl);

    let mut expected_cpu = actual_cpu.clone();
    expected_cpu.registers.set_sp(expected_sp);

    ld_sp_hl(&mut actual_cpu);

    assert_eq!(actual_cpu, expected_cpu);
}

#[test]
fn test_ld_a16_sp() {
    let reg_pc = 0x12;
    let reg_sp = 0x87;

    let a16 = 0x42;

    let expected_value = reg_sp;

    let mut actual_cpu = Cpu::default();
    actual_cpu.registers.set_pc(reg_pc);
    actual_cpu.registers.set_sp(reg_sp);

    actual_cpu.mmu.write_word(reg_pc + 1, a16).unwrap();

    let mut expected_cpu = actual_cpu.clone();
    expected_cpu.mmu.write_word(a16, expected_value).unwrap();

    ld_a16_sp(&mut actual_cpu).unwrap();

    assert_eq!(actual_cpu, expected_cpu);
}

// The flags before the run are given apart from the flags that the run is
// to leave: H and C are the carries of the low bytes, added as unsigned
// numbers, out of bit 3 and out of bit 7.
fn run_ld_hl_sp_n(
    init_sp: u16,
    signed_arg: i8,
    expected_hl: u16,
    init_flags: (bool, bool),
    expected_flags: (bool, bool),
) {
    let init_pc = 0x12;
    let init_hl = 0;

    let arg = u8::from_ne_bytes(signed_arg.to_ne_bytes());

    let (init_half_carry, init_carry) = init_flags;
    let (expected_half_carry, expected_carry) = expected_flags;

    let mut actual_cpu = Cpu::default();
    actual_cpu.registers.set_pc(init_pc);
    actual_cpu.registers.set_sp(init_sp);
    actual_cpu.registers.set_hl(init_hl);

    actual_cpu.registers.flag.set_zero(true);
    actual_cpu.registers.flag.set_sub(true);

    actual_cpu.registers.flag.set_half_carry(init_half_carry);
    actual_cpu.registers.flag.set_carry(init_carry);

    actual_cpu.mmu.write_byte(init_pc + 1, arg).unwrap();

    let mut expected_cpu = actual_cpu.clone();
    expected_cpu.registers.set_hl(expected_hl);

    expected_cpu.registers.flag.set_zero(false);
    expected_cpu.registers.flag.set_sub(false);

    expected_cpu.registers.flag.set_half_carry(expected_half_carry);
    expected_cpu.registers.flag.set_carry(expected_carry);

    ld_hl_sp_n(&mut actual_cpu);

    assert_eq!(actual_cpu, expected_cpu);
}

#[test]
fn test_ld_hl_sp_n_with_zero_arg() {
    run_ld_hl_sp_n(123, 0, 123, (false, false), (false, false));
}

#[test]
fn test_ld_hl_sp_n_with_positive_arg() {
    // 0xB + 0xA carries out of bit 3.
    run_ld_hl_sp_n(123, 10, 133, (false, false), (true, false));
}

#[test]
fn test_ld_hl_sp_n_with_negtive_arg() {
    // 0x7B + 0xFF carries out of bit 3 and out of bit 7.
    run_ld_hl_sp_n(123, -1, 122, (false, false), (true, true));
}

#[test]
fn test_ld_hl_sp_n_with_carry_flag() {
    run_ld_hl_sp_n(0xFFFF, 1, 0, (false, false), (true, true));
}

#[test]
fn test_ld_hl_sp_n_with_half_carry_flag() {
    // 0xFF + 0x01 carries out of bit 7 too.
    run_ld_hl_sp_n(0x00FF, 1, 0x0100, (false, true), (true, true));
}

#[test]
fn loads_of_words_report_their_timing() {
    let mut cpu = Cpu::default();

    assert_eq!(ld_sp_hl(&mut cpu), (Cycle(8), OpLength(1)));
    assert_eq!(ld_hl_sp_n(&mut cpu), (Cycle(12), OpLength(2)));
    assert_eq!(ld_a16_sp(&mut cpu), Ok((Cycle(20), OpLength(3))));
}

#[test]
fn ld_a16_sp_stores_the_high_byte_first() {
    let mut cpu = Cpu::default();
    cpu.registers.set_sp(0x1234);
    cpu.mmu.write_word(0x0001, 0x8000).unwrap();

    ld_a16_sp(&mut cpu).unwrap();

    assert_eq!(cpu.mmu.read_byte(0x8000), 0x12);
    assert_eq!(cpu.mmu.read_byte(0x8001), 0x34);
}

#[test]
fn ld_a16_sp_out_of_bound_changes_nothing() {
    let mut cpu = Cpu::default();
    cpu.registers.set_sp(0x1234);
    cpu.mmu.write_word(0x0001, 0xFFFE).unwrap();
    let before = cpu.clone();

    assert_eq!(ld_a16_sp(&mut cpu), Err(Error::OutOfBound));
    assert!(cpu == before);
}
