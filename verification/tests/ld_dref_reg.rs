use gameboy_cpu::cpu::Cpu;
use gameboy_cpu::mmu::Error;
use gameboy_cpu::opcode::ld_dref_reg::{
    ld_a16_dref_a, ld_bc_dref_a, ld_c_dref_a, ld_de_dref_a, ld_hl_dref_a, ld_hl_dref_b,
    ld_hl_dref_c, ld_hl_dref_d, ld_hl_dref_d8, ld_hl_dref_e, ld_hl_dref_h, ld_hl_dref_l,
    ldd_hl_dref_a, ldh_a8_dref_a, ldi_hl_dref_a,
};
use gameboy_cpu::opcode::table::{Cycle, OpLength};
use gameboy_cpu::opcode::types::InstructionResult;
use gameboy_cpu::registers::Registers;

type StoreInstruction = dyn Fn(&mut Cpu) -> Result<InstructionResult, Error>;

#[test]
fn run_ldi_hl_dref_a() {
    // Arrange: prepare cpu.
    let the_addr = 0x4242;
    let the_value = 0x42;

    let mut actual_cpu = Cpu::default();
    actual_cpu.registers.set_hl(the_addr);
    actual_cpu.registers.set_a(the_value);

    let mut expected_cpu = actual_cpu.clone();
    expected_cpu.mmu.write_byte(the_addr, the_value).unwrap();
    expected_cpu.registers.set_hl(the_addr + 1);

    // Action.cpu
    ldi_hl_dref_a(&mut actual_cpu).unwrap();

    // Assert: check cpu state.
    assert_eq!(actual_cpu, expected_cpu);
}

#[test]
fn run_ldd_hl_dref_a() {
    // Arrange: prepare cpu.
    let the_addr = 0x4242;
    let the_value = 0x42;

    let mut actual_cpu = Cpu::default();
    actual_cpu.registers.set_hl(the_addr);
    actual_cpu.registers.set_a(the_value);

    let mut expected_cpu = actual_cpu.clone();
    expected_cpu.mmu.write_byte(the_addr, the_value).unwrap();
    expected_cpu.registers.set_hl(the_addr - 1);

    // Action.cpu
    ldd_hl_dref_a(&mut actual_cpu).unwrap();

    // Assert: check cpu state.
    assert_eq!(actual_cpu, expected_cpu);
}

#[test]
fn run_ld_a16_dref_a() {
    // Arrange: prepare cpu.
    let the_addr = 0xFB42;
    let the_value = 0x42;

    let mut actual_cpu = Cpu::default();
    actual_cpu.registers.set_pc(0);
    actual_cpu.mmu.write_byte(0, 0xEA).unwrap();
    actual_cpu.mmu.write_word(1, the_addr).unwrap();
    actual_cpu.registers.set_a(the_value);

    let mut expected_cpu = actual_cpu.clone();
    expected_cpu.mmu.write_byte(the_addr, the_value).unwrap();

    // Action.cpu
    ld_a16_dref_a(&mut actual_cpu).unwrap();

    // Assert: check cpu state.
    assert_eq!(actual_cpu, expected_cpu);
}

fn ld_dref_reg_test(
    ins_to_test: &StoreInstruction,
    addr_reg_setter: &dyn Fn(&mut Registers, u16),
    val_reg_setter: &dyn Fn(&mut Registers, u8),
) {
    // Arrange: prepare cpu.
    // The value is for instruction like "ld_hl_dref_h" and "ld_hl_dref_h" which
    // overlaped. Repeated value avoid unexpected behaviour.
    let the_addr = 0x4242;
    let the_value = 0x42;

    let mut actual_cpu = Cpu::default();
    addr_reg_setter(&mut actual_cpu.registers, the_addr);
    val_reg_setter(&mut actual_cpu.registers, the_value);

    let mut expected_cpu = actual_cpu.clone();
    expected_cpu.mmu.write_byte(the_addr, the_value).unwrap();

    // Action.cpu
    assert_eq!(ins_to_test(&mut actual_cpu), Ok((Cycle(8), OpLength(1))));

    // Assert: check cpu state.
    assert_eq!(actual_cpu, expected_cpu);
}

#[test]
fn run_ld_bc_dref_a() {
    ld_dref_reg_test(&ld_bc_dref_a, &Registers::set_bc, &Registers::set_a);
}

#[test]
fn run_ld_de_dref_a() {
    ld_dref_reg_test(&ld_de_dref_a, &Registers::set_de, &Registers::set_a);
}

#[test]
fn run_ld_hl_dref_a() {
    ld_dref_reg_test(&ld_hl_dref_a, &Registers::set_hl, &Registers::set_a);
}

#[test]
fn run_ld_hl_dref_b() {
    ld_dref_reg_test(&ld_hl_dref_b, &Registers::set_hl, &Registers::set_b);
}

#[test]
fn run_ld_hl_dref_c() {
    ld_dref_reg_test(&ld_hl_dref_c, &Registers::set_hl, &Registers::set_c);
}

#[test]
fn run_ld_hl_dref_d() {
    ld_dref_reg_test(&ld_hl_dref_d, &Registers::set_hl, &Registers::set_d);
}

#[test]
fn run_ld_hl_dref_e() {
    ld_dref_reg_test(&ld_hl_dref_e, &Registers::set_hl, &Registers::set_e);
}

#[test]
fn run_ld_hl_dref_h() {
    ld_dref_reg_test(&ld_hl_dref_h, &Registers::set_hl, &Registers::set_h);
}

#[test]
fn run_ld_hl_dref_l() {
    ld_dref_reg_test(&ld_hl_dref_l, &Registers::set_hl, &Registers::set_l);
}

#[test]
fn stores_out_of_bound_change_nothing() {
    let stores: [&StoreInstruction; 14] = [
        &ld_bc_dref_a,
        &ld_de_dref_a,
        &ld_hl_dref_a,
        &ld_hl_dref_b,
        &ld_hl_dref_c,
        &ld_hl_dref_d,
        &ld_hl_dref_e,
        &ld_hl_dref_h,
        &ld_hl_dref_l,
        &ldi_hl_dref_a,
        &ldd_hl_dref_a,
        &ld_hl_dref_d8,
        &ldh_a8_dref_a,
        &ld_c_dref_a,
    ];
    for inst in stores {
        let mut cpu = Cpu::default();
        cpu.registers.set_bc(0xFFFF);
        cpu.registers.set_de(0xFFFF);
        cpu.registers.set_hl(0xFFFF);
        cpu.registers.set_a(0x42);
        cpu.mmu.write_byte(0x0001, 0xFF).unwrap();
        let before = cpu.clone();

        assert_eq!(inst(&mut cpu), Err(Error::OutOfBound));
        assert!(cpu == before);
    }

    let mut cpu = Cpu::default();
    cpu.mmu.write_word(0x0001, 0xFFFF).unwrap();
    let before = cpu.clone();
    assert_eq!(ld_a16_dref_a(&mut cpu), Err(Error::OutOfBound));
    assert!(cpu == before);
}

#[test]
fn stores_of_the_immediate_byte_and_into_the_high_page() {
    let mut cpu = Cpu::default();
    cpu.registers.set_pc(0x0100);
    cpu.registers.set_hl(0x2000);
    cpu.registers.set_a(0x5A);
    cpu.registers.set_c(0x80);
    cpu.mmu.write_byte(0x0101, 0x42).unwrap();

    assert_eq!(ld_hl_dref_d8(&mut cpu), Ok((Cycle(12), OpLength(2))));
    assert_eq!(cpu.mmu.read_byte(0x2000), 0x42);

    assert_eq!(ldh_a8_dref_a(&mut cpu), Ok((Cycle(12), OpLength(2))));
    assert_eq!(cpu.mmu.read_byte(0xFF42), 0x5A);

    assert_eq!(ld_c_dref_a(&mut cpu), Ok((Cycle(8), OpLength(2))));
    assert_eq!(cpu.mmu.read_byte(0xFF80), 0x5A);

    assert_eq!(ld_a16_dref_a(&mut cpu), Ok((Cycle(16), OpLength(3))));
    assert_eq!(cpu.mmu.read_byte(0x4200), 0x5A);
}

#[test]
fn stores_with_a_step_report_their_timing_and_wrap_hl() {
    let mut cpu = Cpu::default();
    cpu.registers.set_hl(0x0000);
    cpu.registers.set_a(0x42);

    assert_eq!(ldd_hl_dref_a(&mut cpu), Ok((Cycle(8), OpLength(1))));
    assert_eq!(cpu.registers.hl(), 0xFFFF);
    assert_eq!(cpu.mmu.read_byte(0x0000), 0x42);

    cpu.registers.set_hl(0xFFFE);
    assert_eq!(ldi_hl_dref_a(&mut cpu), Ok((Cycle(8), OpLength(1))));
    assert_eq!(cpu.registers.hl(), 0xFFFF);
    assert_eq!(cpu.mmu.read_byte(0xFFFE), 0x42);
}
