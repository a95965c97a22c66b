use emu6502::CPU;

#[test]
fn bcc_not_taken_moves_past_the_displacement() {
    let mut cpu = CPU::new();
    cpu.write_mem(0, 0x7F);
    cpu.sec_set_carry_flag();
    cpu.bcc_branch_if_carry_clear();
    assert_eq!(cpu.program_counter(), 1);
}

#[test]
fn bcc_taken_adds_the_displacement() {
    let mut cpu = CPU::new();
    cpu.write_mem(0, 0x10);
    cpu.bcc_branch_if_carry_clear();
    assert_eq!(cpu.program_counter(), 0x0011);
}

#[test]
fn branch_backwards_wraps_around() {
    // Displacement -3 from address 1 is 0xFFFE.
    let mut cpu = CPU::new();
    cpu.write_mem(0, 0xFD);
    cpu.branch();
    assert_eq!(cpu.program_counter(), 0xFFFE);

    // From 0xFFFE the displacement byte is 0; the target is 0xFFFF.
    cpu.branch();
    assert_eq!(cpu.program_counter(), 0xFFFF);

    // At 0xFFFF the next address wraps to 0.
    cpu.write_mem(0xFFFF, 0x05);
    cpu.branch();
    assert_eq!(cpu.program_counter(), 0x0005);
}

#[test]
fn branch_with_extreme_displacements() {
    let mut cpu = CPU::new();
    cpu.write_mem(0, 0x7F);
    cpu.branch();
    assert_eq!(cpu.program_counter(), 0x0080);

    cpu.write_mem(0x0080, 0x80);
    cpu.branch();
    assert_eq!(cpu.program_counter(), 0x0001);
}

#[test]
fn skip_branch_wraps_at_the_top() {
    let mut cpu = CPU::new();
    cpu.write_mem(0, 0xFE);
    cpu.branch();
    assert_eq!(cpu.program_counter(), 0xFFFF);
    cpu.skip_branch();
    assert_eq!(cpu.program_counter(), 0x0000);
}

#[test]
fn bcs_follows_carry() {
    let mut cpu = CPU::new();
    cpu.write_mem(0, 0x20);
    cpu.bcs_branch_if_carry_set();
    assert_eq!(cpu.program_counter(), 1);

    cpu.write_mem(1, 0x20);
    cpu.sec_set_carry_flag();
    cpu.bcs_branch_if_carry_set();
    assert_eq!(cpu.program_counter(), 0x22);
}

#[test]
fn beq_and_bne_follow_zero() {
    let mut cpu = CPU::new();
    cpu.write_mem(0, 0x04);
    cpu.beq_branch_if_equal();
    assert_eq!(cpu.program_counter(), 1);

    cpu.write_mem(1, 0x04);
    cpu.bne_branch_if_not_equal();
    assert_eq!(cpu.program_counter(), 6);

    cpu.set_zero_flag();
    cpu.write_mem(6, 0x04);
    cpu.bne_branch_if_not_equal();
    assert_eq!(cpu.program_counter(), 7);

    cpu.write_mem(7, 0x04);
    cpu.beq_branch_if_equal();
    assert_eq!(cpu.program_counter(), 12);
}

#[test]
fn bmi_and_bpl_follow_negative() {
    let mut cpu = CPU::new();
    cpu.write_mem(0, 0x02);
    cpu.bmi_branch_if_minus();
    assert_eq!(cpu.program_counter(), 1);

    cpu.write_mem(1, 0x02);
    cpu.bpl_branch_if_positive();
    assert_eq!(cpu.program_counter(), 4);

    cpu.set_negative_flag();
    cpu.write_mem(4, 0x02);
    cpu.bpl_branch_if_positive();
    assert_eq!(cpu.program_counter(), 5);

    cpu.write_mem(5, 0x02);
    cpu.bmi_branch_if_minus();
    assert_eq!(cpu.program_counter(), 8);
}

#[test]
fn bvc_and_bvs_follow_overflow() {
    let mut cpu = CPU::new();
    cpu.write_mem(0, 0x08);
    cpu.bvc_branch_if_overflow_set();
    assert_eq!(cpu.program_counter(), 1);

    cpu.write_mem(1, 0x08);
    cpu.bvc_branch_if_overflow_clear();
    assert_eq!(cpu.program_counter(), 10);

    cpu.set_overflow_flag();
    cpu.write_mem(10, 0x08);
    cpu.bvc_branch_if_overflow_clear();
    assert_eq!(cpu.program_counter(), 11);

    cpu.write_mem(11, 0x08);
    cpu.bvc_branch_if_overflow_set();
    assert_eq!(cpu.program_counter(), 20);
}

#[test]
fn branches_leave_registers_and_flags() {
    let mut cpu = CPU::new();
    cpu.lda_load_accumulator(0x80);
    cpu.sec_set_carry_flag();
    let status = cpu.status();
    cpu.write_mem(0, 0x30);
    cpu.bcs_branch_if_carry_set();
    assert_eq!(cpu.program_counter(), 0x31);
    assert_eq!(cpu.accumulator(), 0x80);
    assert_eq!(cpu.status(), status);
    assert_eq!(cpu.read_mem(0), 0x30);
}
