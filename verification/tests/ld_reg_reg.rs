use gameboy_cpu::cpu::Cpu;
use gameboy_cpu::opcode::ld_reg_reg;
use gameboy_cpu::opcode::table::{Cycle, OpLength};
use gameboy_cpu::registers::Registers;

type Instruction = dyn Fn(&mut Cpu) -> (Cycle, OpLength);
type Getter = dyn Fn(&Registers) -> u8;
type Setter = dyn Fn(&mut Registers, u8);

// src and dest are the same.
fn ld_reg_reg_same_test(ins_to_test: &Instruction, load: &Getter, store: &Setter) {
    // Arrange: prepare CPU and its clone.
    let the_value = 0x42;

    let mut init_cpu = Cpu::default();
    store(&mut init_cpu.registers, the_value);

    let mut modified_cpu = init_cpu.clone();

    // Action: performing operation.
    assert_eq!(ins_to_test(&mut modified_cpu), (Cycle(4), OpLength(1)));

    // Assert: test register lhs's value.
    let actual_value = load(&modified_cpu.registers);
    assert_eq!(actual_value, the_value);

    // Assert: make sure cpu is the same.
    assert!(init_cpu == modified_cpu);
}

fn ld_reg_reg_test(
    ins_to_test: &Instruction,
    load_lhs: &Getter,
    store_lhs: &Setter,
    store_rhs: &Setter,
) {
    // Arrange: prepare CPU and its clone.
    let the_value = 0x42;

    let mut init_cpu = Cpu::default();
    store_rhs(&mut init_cpu.registers, the_value);

    let mut modified_cpu = init_cpu.clone();

    // Action: performing operation.
    assert_eq!(ins_to_test(&mut modified_cpu), (Cycle(4), OpLength(1)));

    // Assert: test register lhs's value.
    let actual_value = load_lhs(&modified_cpu.registers);
    assert_eq!(actual_value, the_value);

    // Assert: make sure only CPU only different in register lhs's value.
    store_lhs(&mut init_cpu.registers, the_value);
    assert!(init_cpu == modified_cpu);
}

#[test]
fn run_ld_a_a() {
    ld_reg_reg_same_test(&ld_reg_reg::ld_a_a, &Registers::a, &Registers::set_a);
}

#[test]
fn run_ld_b_b() {
    ld_reg_reg_same_test(&ld_reg_reg::ld_b_b, &Registers::b, &Registers::set_b);
}

#[test]
fn run_ld_c_c() {
    ld_reg_reg_same_test(&ld_reg_reg::ld_c_c, &Registers::c, &Registers::set_c);
}

#[test]
fn run_ld_d_d() {
    ld_reg_reg_same_test(&ld_reg_reg::ld_d_d, &Registers::d, &Registers::set_d);
}

#[test]
fn run_ld_e_e() {
    ld_reg_reg_same_test(&ld_reg_reg::ld_e_e, &Registers::e, &Registers::set_e);
}

#[test]
fn run_ld_h_h() {
    ld_reg_reg_same_test(&ld_reg_reg::ld_h_h, &Registers::h, &Registers::set_h);
}

#[test]
fn run_ld_l_l() {
    ld_reg_reg_same_test(&ld_reg_reg::ld_l_l, &Registers::l, &Registers::set_l);
}

#[test]
fn run_ld_a_b() {
    ld_reg_reg_test(
        &ld_reg_reg::ld_a_b,
        &Registers::a,
        &Registers::set_a,
        &Registers::set_b,
    );
}

#[test]
fn run_ld_a_c() {
    ld_reg_reg_test(
        &ld_reg_reg::ld_a_c,
        &Registers::a,
        &Registers::set_a,
        &Registers::set_c,
    );
}

#[test]
fn run_ld_a_d() {
    ld_reg_reg_test(
        &ld_reg_reg::ld_a_d,
        &Registers::a,
        &Registers::set_a,
        &Registers::set_d,
    );
}

#[test]
fn run_ld_a_e() {
    ld_reg_reg_test(
        &ld_reg_reg::ld_a_e,
        &Registers::a,
        &Registers::set_a,
        &Registers::set_e,
    );
}

#[test]
fn run_ld_a_h() {
    ld_reg_reg_test(
        &ld_reg_reg::ld_a_h,
        &Registers::a,
        &Registers::set_a,
        &Registers::set_h,
    );
}

#[test]
fn run_ld_a_l() {
    ld_reg_reg_test(
        &ld_reg_reg::ld_a_l,
        &Registers::a,
        &Registers::set_a,
        &Registers::set_l,
    );
}

#[test]
fn run_ld_b_a() {
    ld_reg_reg_test(
        &ld_reg_reg::ld_b_a,
        &Registers::b,
        &Registers::set_b,
        &Registers::set_a,
    );
}

#[test]
fn run_ld_b_c() {
    ld_reg_reg_test(
        &ld_reg_reg::ld_b_c,
        &Registers::b,
        &Registers::set_b,
        &Registers::set_c,
    );
}

#[test]
fn run_ld_b_d() {
    ld_reg_reg_test(
        &ld_reg_reg::ld_b_d,
        &Registers::b,
        &Registers::set_b,
        &Registers::set_d,
    );
}

#[test]
fn run_ld_b_e() {
    ld_reg_reg_test(
        &ld_reg_reg::ld_b_e,
        &Registers::b,
        &Registers::set_b,
        &Registers::set_e,
    );
}

#[test]
fn run_ld_b_h() {
    ld_reg_reg_test(
        &ld_reg_reg::ld_b_h,
        &Registers::b,
        &Registers::set_b,
        &Registers::set_h,
    );
}

#[test]
fn run_ld_b_l() {
    ld_reg_reg_test(
        &ld_reg_reg::ld_b_l,
        &Registers::b,
        &Registers::set_b,
        &Registers::set_l,
    );
}

#[test]
fn run_ld_c_a() {
    ld_reg_reg_test(
        &ld_reg_reg::ld_c_a,
        &Registers::c,
        &Registers::set_c,
        &Registers::set_a,
    );
}

#[test]
fn run_ld_c_b() {
    ld_reg_reg_test(
        &ld_reg_reg::ld_c_b,
        &Registers::c,
        &Registers::set_c,
        &Registers::set_b,
    );
}

#[test]
fn run_ld_c_d() {
    ld_reg_reg_test(
        &ld_reg_reg::ld_c_d,
        &Registers::c,
        &Registers::set_c,
        &Registers::set_d,
    );
}

#[test]
fn run_ld_c_e() {
    ld_reg_reg_test(
        &ld_reg_reg::ld_c_e,
        &Registers::c,
        &Registers::set_c,
        &Registers::set_e,
    );
}

#[test]
fn run_ld_c_h() {
    ld_reg_reg_test(
        &ld_reg_reg::ld_c_h,
        &Registers::c,
        &Registers::set_c,
        &Registers::set_h,
    );
}

#[test]
fn run_ld_c_l() {
    ld_reg_reg_test(
        &ld_reg_reg::ld_c_l,
        &Registers::c,
        &Registers::set_c,
        &Registers::set_l,
    );
}

#[test]
fn run_ld_d_a() {
    ld_reg_reg_test(
        &ld_reg_reg::ld_d_a,
        &Registers::d,
        &Registers::set_d,
        &Registers::set_a,
    );
}

#[test]
fn run_ld_d_b() {
    ld_reg_reg_test(
        &ld_reg_reg::ld_d_b,
        &Registers::d,
        &Registers::set_d,
        &Registers::set_b,
    );
}

#[test]
fn run_ld_d_c() {
    ld_reg_reg_test(
        &ld_reg_reg::ld_d_c,
        &Registers::d,
        &Registers::set_d,
        &Registers::set_c,
    );
}

#[test]
fn run_ld_d_e() {
    ld_reg_reg_test(
        &ld_reg_reg::ld_d_e,
        &Registers::d,
        &Registers::set_d,
        &Registers::set_e,
    );
}

#[test]
fn run_ld_d_h() {
    ld_reg_reg_test(
        &ld_reg_reg::ld_d_h,
        &Registers::d,
        &Registers::set_d,
        &Registers::set_h,
    );
}

#[test]
fn run_ld_d_l() {
    ld_reg_reg_test(
        &ld_reg_reg::ld_d_l,
        &Registers::d,
        &Registers::set_d,
        &Registers::set_l,
    );
}

#[test]
fn run_ld_e_a() {
    ld_reg_reg_test(
        &ld_reg_reg::ld_e_a,
        &Registers::e,
        &Registers::set_e,
        &Registers::set_a,
    );
}

#[test]
fn run_ld_e_b() {
    ld_reg_reg_test(
        &ld_reg_reg::ld_e_b,
        &Registers::e,
        &Registers::set_e,
        &Registers::set_b,
    );
}

#[test]
fn run_ld_e_c() {
    ld_reg_reg_test(
        &ld_reg_reg::ld_e_c,
        &Registers::e,
        &Registers::set_e,
        &Registers::set_c,
    );
}

#[test]
fn run_ld_e_d() {
    ld_reg_reg_test(
        &ld_reg_reg::ld_e_d,
        &Registers::e,
        &Registers::set_e,
        &Registers::set_d,
    );
}

#[test]
fn run_ld_e_h() {
    ld_reg_reg_test(
        &ld_reg_reg::ld_e_h,
        &Registers::e,
        &Registers::set_e,
        &Registers::set_h,
    );
}

#[test]
fn run_ld_e_l() {
    ld_reg_reg_test(
        &ld_reg_reg::ld_e_l,
        &Registers::e,
        &Registers::set_e,
        &Registers::set_l,
    );
}

#[test]
fn run_ld_h_a() {
    ld_reg_reg_test(
        &ld_reg_reg::ld_h_a,
        &Registers::h,
        &Registers::set_h,
        &Registers::set_a,
    );
}

#[test]
fn run_ld_h_b() {
    ld_reg_reg_test(
        &ld_reg_reg::ld_h_b,
        &Registers::h,
        &Registers::set_h,
        &Registers::set_b,
    );
}

#[test]
fn run_ld_h_c() {
    ld_reg_reg_test(
        &ld_reg_reg::ld_h_c,
        &Registers::h,
        &Registers::set_h,
        &Registers::set_c,
    );
}

#[test]
fn run_ld_h_d() {
    ld_reg_reg_test(
        &ld_reg_reg::ld_h_d,
        &Registers::h,
        &Registers::set_h,
        &Registers::set_d,
    );
}

#[test]
fn run_ld_h_e() {
    ld_reg_reg_test(
        &ld_reg_reg::ld_h_e,
        &Registers::h,
        &Registers::set_h,
        &Registers::set_e,
    );
}

#[test]
fn run_ld_h_l() {
    ld_reg_reg_test(
        &ld_reg_reg::ld_h_l,
        &Registers::h,
        &Registers::set_h,
        &Registers::set_l,
    );
}

#[test]
fn run_ld_l_a() {
    ld_reg_reg_test(
        &ld_reg_reg::ld_l_a,
        &Registers::l,
        &Registers::set_l,
        &Registers::set_a,
    );
}

#[test]
fn run_ld_l_b() {
    ld_reg_reg_test(
        &ld_reg_reg::ld_l_b,
        &Registers::l,
        &Registers::set_l,
        &Registers::set_b,
    );
}

#[test]
fn run_ld_l_c() {
    ld_reg_reg_test(
        &ld_reg_reg::ld_l_c,
        &Registers::l,
        &Registers::set_l,
        &Registers::set_c,
    );
}

#[test]
fn run_ld_l_d() {
    ld_reg_reg_test(
        &ld_reg_reg::ld_l_d,
        &Registers::l,
        &Registers::set_l,
        &Registers::set_d,
    );
}

#[test]
fn run_ld_l_e() {
    ld_reg_reg_test(
        &ld_reg_reg::ld_l_e,
        &Registers::l,
        &Registers::set_l,
        &Registers::set_e,
    );
}

#[test]
fn run_ld_l_h() {
    ld_reg_reg_test(
        &ld_reg_reg::ld_l_h,
        &Registers::l,
        &Registers::set_l,
        &Registers::set_h,
    );
}
