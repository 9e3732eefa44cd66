use gameboy_cpu::cpu::Cpu;
use gameboy_cpu::opcode::ld_reg_d8::{
    ld_a_d8, ld_b_d8, ld_c_d8, ld_d_d8, ld_e_d8, ld_h_d8, ld_l_d8,
};
use gameboy_cpu::opcode::table::{Cycle, OpLength};
use gameboy_cpu::registers::Registers;

type Instruction = dyn Fn(&mut Cpu) -> (Cycle, OpLength);
type LoadByteFromRegFn = dyn Fn(&Registers) -> u8;
type StoreByteToRegFn = dyn Fn(&mut Registers, u8);

fn test_ld_d8(
    op_to_test: &Instruction,
    load_from_reg: &LoadByteFromRegFn,
    store_to_reg: &StoreByteToRegFn,
) {
    // Arrange: prepare CPU and its clone.
    let init_pc = 0x00;
    let the_value = 0x42;

    let mut cpu = Cpu::default();
    cpu.mmu.write_byte(0x00, init_pc).unwrap();
    cpu.mmu.write_byte(0x01, the_value).unwrap();
    cpu.registers.set_pc(init_pc as u16);

    let mut new_cpu = cpu.clone();

    // Action: performing operation.
    assert_eq!(op_to_test(&mut new_cpu), (Cycle(8), OpLength(2)));

    // Assert: test register X's value.
    let actual_value = load_from_reg(&new_cpu.registers);
    assert_eq!(actual_value, the_value);

    // Assert: make sure only CPU only different in register X's value.
    store_to_reg(&mut cpu.registers, the_value);
    assert!(cpu == new_cpu);
}

#[test]
fn run_ld_a_d8() {
    test_ld_d8(&ld_a_d8, &Registers::a, &Registers::set_a);
}

#[test]
fn run_ld_b_d8() {
    test_ld_d8(&ld_b_d8, &Registers::b, &Registers::set_b);
}

#[test]
fn run_ld_c_d8() {
    test_ld_d8(&ld_c_d8, &Registers::c, &Registers::set_c);
}

#[test]
fn run_ld_d_d8() {
    test_ld_d8(&ld_d_d8, &Registers::d, &Registers::set_d);
}

#[test]
fn run_ld_e_d8() {
    test_ld_d8(&ld_e_d8, &Registers::e, &Registers::set_e);
}

#[test]
fn run_ld_h_d8() {
    test_ld_d8(&ld_h_d8, &Registers::h, &Registers::set_h);
}

#[test]
fn run_ld_l_d8() {
    test_ld_d8(&ld_l_d8, &Registers::l, &Registers::set_l);
}
