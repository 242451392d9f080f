use nes_core::cpu::{AddressingMode, Memory, Outcome, CPU};

#[test]
fn test_0xa9_lda_immediate_load_data() {
    let mut cpu = CPU::new();
    cpu.load_and_run(vec![0xa9, 0x05, 0x00]);
    assert_eq!(cpu.acc, 5);
    assert!(cpu.status & 0b0000_0010 == 0);
    assert!(cpu.status & 0b1000_0000 == 0);
}

#[test]
fn test_0xa9_lda_zero_flag() {
    let mut cpu = CPU::new();
    cpu.load_and_run(vec![0xa9, 0x00, 0x00]);
    assert!(cpu.status & 0b0000_0010 == 0b10);
}

#[test]
fn test_0xaa_tax_move_a_to_x() {
    let mut cpu = CPU::new();
    cpu.load_and_run(vec![0xa9, 0x0A, 0xaa, 0x00]);

    assert_eq!(cpu.index_x, 10)
}

#[test]
fn test_5_ops_working_together() {
    let mut cpu = CPU::new();
    cpu.load_and_run(vec![0xa9, 0xc0, 0xaa, 0xe8, 0x00]);

    assert_eq!(cpu.index_x, 0xc1)
}

#[test]
fn test_inx_overflow() {
    let mut cpu = CPU::new();
    cpu.load_and_run(vec![0xa9, 0xff, 0xaa, 0xe8, 0xe8, 0x00]);

    assert_eq!(cpu.index_x, 1)
}

#[test]
fn test_lda_from_memory() {
    let mut cpu = CPU::new();
    cpu.mem_write(0x10, 0x55);

    cpu.load_and_run(vec![0xa5, 0x10, 0x00]);

    assert_eq!(cpu.acc, 0x55);
}

#[test]
fn load_and_run_reports_break() {
    let mut cpu = CPU::new();
    let outcome = cpu.load_and_run(vec![0xa9, 0x05, 0x00]);
    assert_eq!(outcome, Outcome::Break);
    assert_eq!(cpu.pc, 0x0603);
}

#[test]
fn lda_immediate_clears_zero_and_negative() {
    let mut cpu = CPU::new();
    cpu.load_and_run(vec![0xa9, 0x05, 0x00]);
    assert_eq!(cpu.acc, 0x05);
    assert_eq!(cpu.status & 0b0000_0010, 0);
    assert_eq!(cpu.status & 0b1000_0000, 0);
}

#[test]
fn lda_zero_sets_zero_flag() {
    let mut cpu = CPU::new();
    cpu.load_and_run(vec![0xa9, 0x00, 0x00]);
    assert_eq!(cpu.acc, 0x00);
    assert_eq!(cpu.status & 0b0000_0010, 0b10);
}

#[test]
fn adc_signed_overflow_of_80_plus_80() {
    let mut cpu = CPU::new();
    let outcome = cpu.load_and_run(vec![0xa9, 0x50, 0x69, 0x50, 0x00]);
    assert_eq!(outcome, Outcome::Break);
    assert_eq!(cpu.acc, 0xA0);
    assert_eq!(cpu.status & 0x40, 0x40);
    assert_eq!(cpu.status & 0x80, 0x80);
    assert_eq!(cpu.status & 0x01, 0x00);
    assert_eq!(cpu.status & 0x02, 0x00);
}

#[test]
fn adc_matches_addition_for_every_operand_pair() {
    for carry in 0..2u16 {
        for a in 0..=255u16 {
            for b in 0..=255u16 {
                let flag_op = if carry == 1 { 0x38 } else { 0x18 };
                let mut cpu = CPU::new();
                cpu.load(vec![flag_op, 0xa9, a as u8, 0x69, b as u8, 0x00]);
                cpu.reset();
                assert_eq!(cpu.step(), Outcome::Running);
                assert_eq!(cpu.step(), Outcome::Running);
                assert_eq!(cpu.step(), Outcome::Running);
                let sum = a + b + carry;
                let signed = (a as u8 as i8 as i16) + (b as u8 as i8 as i16) + carry as i16;
                assert_eq!(cpu.acc, (sum % 256) as u8);
                assert_eq!(cpu.status & 0x01 != 0, sum > 255);
                assert_eq!(cpu.status & 0x40 != 0, signed < -128 || signed > 127);
                assert_eq!(cpu.status & 0x02 != 0, sum % 256 == 0);
                assert_eq!(cpu.status & 0x80 != 0, sum % 256 >= 128);
                assert_eq!(cpu.pc, 0x0605);
            }
        }
    }
}

#[test]
fn sbc_matches_subtraction_for_every_operand_pair() {
    for carry in 0..2i16 {
        for a in 0..=255i16 {
            for b in 0..=255i16 {
                let flag_op = if carry == 1 { 0x38 } else { 0x18 };
                let mut cpu = CPU::new();
                cpu.load(vec![flag_op, 0xa9, a as u8, 0xe9, b as u8, 0x00]);
                cpu.reset();
                cpu.step();
                cpu.step();
                cpu.step();
                let difference = a - b - (1 - carry);
                let signed = (a as u8 as i8 as i16) - (b as u8 as i8 as i16) - (1 - carry);
                assert_eq!(cpu.acc, difference.rem_euclid(256) as u8);
                assert_eq!(cpu.status & 0x01 != 0, difference >= 0);
                assert_eq!(cpu.status & 0x40 != 0, signed < -128 || signed > 127);
            }
        }
    }
}

#[test]
fn sbc_exact_values() {
    let mut cpu = CPU::new();
    cpu.load_and_run(vec![0x38, 0xa9, 0x50, 0xe9, 0xf0, 0x00]);
    assert_eq!(cpu.acc, 0x60);
    assert_eq!(cpu.status & 0x01, 0x00);
    assert_eq!(cpu.status & 0x40, 0x00);

    let mut cpu = CPU::new();
    cpu.load_and_run(vec![0x38, 0xa9, 0x50, 0xe9, 0xb0, 0x00]);
    assert_eq!(cpu.acc, 0xA0);
    assert_eq!(cpu.status & 0x01, 0x00);
    assert_eq!(cpu.status & 0x40, 0x40);

    let mut cpu = CPU::new();
    cpu.load_and_run(vec![0x38, 0xa9, 0x05, 0xe9, 0x03, 0x00]);
    assert_eq!(cpu.acc, 0x02);
    assert_eq!(cpu.status & 0x01, 0x01);
}

#[test]
fn add_then_subtract_gives_the_accumulator_back() {
    for a in 0..=255u8 {
        for b in [0u8, 1, 0x7f, 0x80, 0xff] {
            let mut cpu = CPU::new();
            cpu.load_and_run(vec![0x18, 0xa9, a, 0x69, b, 0x38, 0xe9, b, 0x00]);
            assert_eq!(cpu.acc, a);
        }
    }
}

#[test]
fn decimal_flag_does_not_change_addition() {
    let mut cpu = CPU::new();
    cpu.load_and_run(vec![0xf8, 0x18, 0xa9, 0x09, 0x69, 0x01, 0x00]);
    assert_eq!(cpu.acc, 0x0A);
    assert_eq!(cpu.status & 0x08, 0x08);
}

#[test]
fn zero_and_negative_follow_every_loaded_byte() {
    for value in 0..=255u8 {
        let mut cpu = CPU::new();
        cpu.load_and_run(vec![0xa9, value, 0x00]);
        assert_eq!(cpu.status & 0x02 != 0, value == 0);
        assert_eq!(cpu.status & 0x80 != 0, value & 0x80 != 0);
        assert_eq!(cpu.status & 0x7d, 0x24);
    }
}

#[test]
fn compare_sets_carry_when_register_is_not_below_operand() {
    let mut cpu = CPU::new();
    cpu.load_and_run(vec![0xa9, 0x10, 0xc9, 0x10, 0x00]);
    assert_eq!(cpu.status & 0x01, 0x01);
    assert_eq!(cpu.status & 0x02, 0x02);
    assert_eq!(cpu.status & 0x80, 0x00);
    assert_eq!(cpu.acc, 0x10);

    let mut cpu = CPU::new();
    cpu.load_and_run(vec![0xa9, 0x10, 0xc9, 0x20, 0x00]);
    assert_eq!(cpu.status & 0x01, 0x00);
    assert_eq!(cpu.status & 0x02, 0x00);
    assert_eq!(cpu.status & 0x80, 0x80);

    let mut cpu = CPU::new();
    cpu.load_and_run(vec![0xa9, 0x20, 0xc9, 0x10, 0x00]);
    assert_eq!(cpu.status & 0x01, 0x01);
    assert_eq!(cpu.status & 0x02, 0x00);
    assert_eq!(cpu.status & 0x80, 0x00);
}

#[test]
fn cpx_and_cpy_compare_the_index_registers() {
    let mut cpu = CPU::new();
    cpu.load_and_run(vec![0xa2, 0x05, 0xe0, 0x05, 0x00]);
    assert_eq!(cpu.status & 0x03, 0x03);

    let mut cpu = CPU::new();
    cpu.load_and_run(vec![0xa0, 0x01, 0xc0, 0x02, 0x00]);
    assert_eq!(cpu.status & 0x03, 0x00);
    assert_eq!(cpu.status & 0x80, 0x80);
}

#[test]
fn logic_instructions() {
    let mut cpu = CPU::new();
    cpu.load_and_run(vec![0xa9, 0b1100_1100, 0x29, 0b1010_1010, 0x00]);
    assert_eq!(cpu.acc, 0b1000_1000);
    assert_eq!(cpu.status & 0x80, 0x80);

    let mut cpu = CPU::new();
    cpu.load_and_run(vec![0xa9, 0b1100_1100, 0x49, 0b1010_1010, 0x00]);
    assert_eq!(cpu.acc, 0b0110_0110);

    let mut cpu = CPU::new();
    cpu.load_and_run(vec![0xa9, 0b1100_1100, 0x09, 0b1010_1010, 0x00]);
    assert_eq!(cpu.acc, 0b1110_1110);

    let mut cpu = CPU::new();
    cpu.load_and_run(vec![0xa9, 0x0f, 0x29, 0xf0, 0x00]);
    assert_eq!(cpu.acc, 0x00);
    assert_eq!(cpu.status & 0x02, 0x02);
}

#[test]
fn bit_takes_n_and_v_from_memory() {
    let mut cpu = CPU::new();
    cpu.mem_write(0x10, 0xC0);
    cpu.load_and_run(vec![0xa9, 0x01, 0x24, 0x10, 0x00]);
    assert_eq!(cpu.acc, 0x01);
    assert_eq!(cpu.status & 0x02, 0x02);
    assert_eq!(cpu.status & 0x80, 0x80);
    assert_eq!(cpu.status & 0x40, 0x40);

    let mut cpu = CPU::new();
    cpu.mem_write(0x10, 0x01);
    cpu.load_and_run(vec![0xa9, 0x01, 0x24, 0x10, 0x00]);
    assert_eq!(cpu.status & 0xC2, 0x00);
}

#[test]
fn shifts_and_rotates_of_the_accumulator() {
    let mut cpu = CPU::new();
    cpu.load_and_run(vec![0xa9, 0x81, 0x0a, 0x00]);
    assert_eq!(cpu.acc, 0x02);
    assert_eq!(cpu.status & 0x01, 0x01);

    let mut cpu = CPU::new();
    cpu.load_and_run(vec![0xa9, 0x01, 0x4a, 0x00]);
    assert_eq!(cpu.acc, 0x00);
    assert_eq!(cpu.status & 0x03, 0x03);

    let mut cpu = CPU::new();
    cpu.load_and_run(vec![0x38, 0xa9, 0x80, 0x2a, 0x00]);
    assert_eq!(cpu.acc, 0x01);
    assert_eq!(cpu.status & 0x01, 0x01);

    let mut cpu = CPU::new();
    cpu.load_and_run(vec![0x18, 0xa9, 0x80, 0x2a, 0x00]);
    assert_eq!(cpu.acc, 0x00);
    assert_eq!(cpu.status & 0x03, 0x03);

    let mut cpu = CPU::new();
    cpu.load_and_run(vec![0x38, 0xa9, 0x01, 0x6a, 0x00]);
    assert_eq!(cpu.acc, 0x80);
    assert_eq!(cpu.status & 0x81, 0x81);

    let mut cpu = CPU::new();
    cpu.load_and_run(vec![0x18, 0xa9, 0x02, 0x6a, 0x00]);
    assert_eq!(cpu.acc, 0x01);
    assert_eq!(cpu.status & 0x81, 0x00);
}

#[test]
fn shifts_and_rotates_of_memory() {
    let mut cpu = CPU::new();
    cpu.mem_write(0x10, 0xC1);
    cpu.load_and_run(vec![0x06, 0x10, 0x00]);
    assert_eq!(cpu.mem_read(0x10), 0x82);
    assert_eq!(cpu.status & 0x81, 0x81);
    assert_eq!(cpu.acc, 0x00);

    let mut cpu = CPU::new();
    cpu.mem_write(0x10, 0x03);
    cpu.load_and_run(vec![0x46, 0x10, 0x00]);
    assert_eq!(cpu.mem_read(0x10), 0x01);
    assert_eq!(cpu.status & 0x01, 0x01);

    let mut cpu = CPU::new();
    cpu.mem_write(0x10, 0x40);
    cpu.load_and_run(vec![0x38, 0x26, 0x10, 0x00]);
    assert_eq!(cpu.mem_read(0x10), 0x81);
    assert_eq!(cpu.status & 0x01, 0x00);

    let mut cpu = CPU::new();
    cpu.mem_write(0x10, 0x01);
    cpu.load_and_run(vec![0x38, 0x66, 0x10, 0x00]);
    assert_eq!(cpu.mem_read(0x10), 0x80);
    assert_eq!(cpu.status & 0x01, 0x01);
}

#[test]
fn increments_and_decrements() {
    let mut cpu = CPU::new();
    cpu.mem_write(0x10, 0xFF);
    cpu.load_and_run(vec![0xe6, 0x10, 0x00]);
    assert_eq!(cpu.mem_read(0x10), 0x00);
    assert_eq!(cpu.status & 0x02, 0x02);

    let mut cpu = CPU::new();
    cpu.load_and_run(vec![0xc6, 0x10, 0x00]);
    assert_eq!(cpu.mem_read(0x10), 0xFF);
    assert_eq!(cpu.status & 0x80, 0x80);

    let mut cpu = CPU::new();
    cpu.load_and_run(vec![0xca, 0x88, 0x88, 0xc8, 0x00]);
    assert_eq!(cpu.index_x, 0xFF);
    assert_eq!(cpu.index_y, 0xFF);
}

#[test]
fn stores_write_registers_without_touching_flags() {
    let mut cpu = CPU::new();
    cpu.load_and_run(vec![0xa9, 0x00, 0xa2, 0x81, 0xa0, 0x33, 0x85, 0x10, 0x86, 0x11, 0x84, 0x12, 0x00]);
    assert_eq!(cpu.mem_read(0x10), 0x00);
    assert_eq!(cpu.mem_read(0x11), 0x81);
    assert_eq!(cpu.mem_read(0x12), 0x33);
    assert_eq!(cpu.status, 0x24);
}

#[test]
fn transfers() {
    let mut cpu = CPU::new();
    cpu.load_and_run(vec![0xa9, 0x80, 0xa8, 0xa9, 0x01, 0x98, 0x00]);
    assert_eq!(cpu.index_y, 0x80);
    assert_eq!(cpu.acc, 0x80);
    assert_eq!(cpu.status & 0x80, 0x80);

    let mut cpu = CPU::new();
    cpu.load_and_run(vec![0xba, 0x8a, 0x00]);
    assert_eq!(cpu.index_x, 0xFD);
    assert_eq!(cpu.acc, 0xFD);

    let mut cpu = CPU::new();
    cpu.load_and_run(vec![0xa2, 0x00, 0x9a, 0x00]);
    assert_eq!(cpu.sp, 0x00);
    assert_eq!(cpu.status & 0x02, 0x02);

    let mut cpu = CPU::new();
    cpu.load_and_run(vec![0xa9, 0x00, 0xa2, 0x40, 0x9a, 0x00]);
    assert_eq!(cpu.sp, 0x40);
    assert_eq!(cpu.status & 0x02, 0x00);
}

#[test]
fn addressing_modes_resolve_as_documented() {
    let mut cpu = CPU::new();
    cpu.mem_write(0x01, 0x11);
    cpu.load_and_run(vec![0xa2, 0x02, 0xb5, 0xff, 0x00]);
    assert_eq!(cpu.acc, 0x11);

    let mut cpu = CPU::new();
    cpu.mem_write(0x03, 0x12);
    cpu.load_and_run(vec![0xa0, 0x04, 0xb6, 0xff, 0x00]);
    assert_eq!(cpu.index_x, 0x12);

    let mut cpu = CPU::new();
    cpu.mem_write(0x1234, 0x13);
    cpu.load_and_run(vec![0xad, 0x34, 0x12, 0x00]);
    assert_eq!(cpu.acc, 0x13);

    let mut cpu = CPU::new();
    cpu.mem_write(0x1300, 0x14);
    cpu.load_and_run(vec![0xa2, 0x01, 0xbd, 0xff, 0x12, 0x00]);
    assert_eq!(cpu.acc, 0x14);

    let mut cpu = CPU::new();
    cpu.mem_write(0x0001, 0x15);
    cpu.load_and_run(vec![0xa0, 0x02, 0xb9, 0xff, 0xff, 0x00]);
    assert_eq!(cpu.acc, 0x15);

    let mut cpu = CPU::new();
    cpu.mem_write(0xff, 0x34);
    cpu.mem_write(0x00, 0x12);
    cpu.mem_write(0x1234, 0x16);
    cpu.load_and_run(vec![0xa2, 0x0f, 0xa1, 0xf0, 0x00]);
    assert_eq!(cpu.acc, 0x16);

    let mut cpu = CPU::new();
    cpu.mem_write(0xff, 0xff);
    cpu.mem_write(0x00, 0x12);
    cpu.mem_write(0x1301, 0x17);
    cpu.load_and_run(vec![0xa0, 0x02, 0xb1, 0xff, 0x00]);
    assert_eq!(cpu.acc, 0x17);
}

#[test]
fn get_operand_address_for_each_mode() {
    let mut cpu = CPU::new();
    cpu.mem_write_u16(0x0700, 0x2040);
    cpu.mem_write_u16(0x0040, 0x3000);
    cpu.mem_write_u16(0x0045, 0x4000);
    cpu.pc = 0x0700;
    cpu.index_x = 0x05;
    cpu.index_y = 0x10;
    assert_eq!(cpu.get_operand_address(&AddressingMode::Immediate), 0x0700);
    assert_eq!(cpu.get_operand_address(&AddressingMode::ZeroPage), 0x0040);
    assert_eq!(cpu.get_operand_address(&AddressingMode::ZeroPageX), 0x0045);
    assert_eq!(cpu.get_operand_address(&AddressingMode::ZeroPageY), 0x0050);
    assert_eq!(cpu.get_operand_address(&AddressingMode::Absolute), 0x2040);
    assert_eq!(cpu.get_operand_address(&AddressingMode::AbsoluteX), 0x2045);
    assert_eq!(cpu.get_operand_address(&AddressingMode::AbsoluteY), 0x2050);
    assert_eq!(cpu.get_operand_address(&AddressingMode::IndirectX), 0x4000);
    assert_eq!(cpu.get_operand_address(&AddressingMode::IndirectY), 0x3010);
}

#[test]
fn indirect_jump_takes_high_byte_from_the_same_page() {
    let mut cpu = CPU::new();
    cpu.mem_write(0x30FF, 0x80);
    cpu.mem_write(0x3000, 0x50);
    cpu.mem_write(0x3100, 0x40);
    cpu.load(vec![0x6c, 0xff, 0x30]);
    cpu.reset();
    assert_eq!(cpu.step(), Outcome::Running);
    assert_eq!(cpu.pc, 0x5080);
}

#[test]
fn indirect_jump_within_a_page() {
    let mut cpu = CPU::new();
    cpu.mem_write_u16(0x3010, 0x4321);
    cpu.load(vec![0x6c, 0x10, 0x30]);
    cpu.reset();
    assert_eq!(cpu.step(), Outcome::Running);
    assert_eq!(cpu.pc, 0x4321);
}

#[test]
fn absolute_jump() {
    let mut cpu = CPU::new();
    cpu.load_and_run(vec![0x4c, 0x05, 0x06, 0xa9, 0x01, 0xa2, 0x02, 0x00]);
    assert_eq!(cpu.acc, 0x00);
    assert_eq!(cpu.index_x, 0x02);
    assert_eq!(cpu.pc, 0x0608);
}

#[test]
fn subroutine_call_and_return() {
    let mut cpu = CPU::new();
    let outcome = cpu.load_and_run(vec![0x20, 0x06, 0x06, 0xa2, 0x07, 0x00, 0xa9, 0x09, 0x60]);
    assert_eq!(outcome, Outcome::Break);
    assert_eq!(cpu.acc, 0x09);
    assert_eq!(cpu.index_x, 0x07);
    assert_eq!(cpu.sp, 0xFD);
    assert_eq!(cpu.pc, 0x0606);
    assert_eq!(cpu.mem_read(0x01FD), 0x06);
    assert_eq!(cpu.mem_read(0x01FC), 0x02);
}

#[test]
fn return_from_interrupt_restores_status_and_pc() {
    let mut cpu = CPU::new();
    cpu.load(vec![0xa9, 0x06, 0x48, 0xa9, 0x0a, 0x48, 0xa9, 0xff, 0x48, 0x40, 0x00]);
    cpu.reset();
    for _ in 0..7 {
        assert_eq!(cpu.step(), Outcome::Running);
    }
    assert_eq!(cpu.pc, 0x060A);
    assert_eq!(cpu.status, 0xEF);
    assert_eq!(cpu.sp, 0xFD);
    assert_eq!(cpu.step(), Outcome::Break);
}

#[test]
fn branches_forward_and_backward() {
    let mut cpu = CPU::new();
    cpu.load_and_run(vec![0xa2, 0x03, 0xca, 0xd0, 0xfd, 0x00]);
    assert_eq!(cpu.index_x, 0x00);
    assert_eq!(cpu.status & 0x02, 0x02);
    assert_eq!(cpu.pc, 0x0606);

    let mut cpu = CPU::new();
    cpu.load_and_run(vec![0xa9, 0x00, 0xf0, 0x02, 0xa9, 0x07, 0x00]);
    assert_eq!(cpu.acc, 0x00);

    let mut cpu = CPU::new();
    cpu.load_and_run(vec![0xa9, 0x01, 0xf0, 0x02, 0xa9, 0x07, 0x00]);
    assert_eq!(cpu.acc, 0x07);
}

#[test]
fn each_branch_tests_its_flag() {
    let taken = |program: Vec<u8>| -> bool {
        let mut cpu = CPU::new();
        cpu.load_and_run(program);
        cpu.index_x == 0
    };
    assert!(taken(vec![0x18, 0x90, 0x02, 0xa2, 0x01, 0x00]));
    assert!(!taken(vec![0x38, 0x90, 0x02, 0xa2, 0x01, 0x00]));
    assert!(taken(vec![0x38, 0xb0, 0x02, 0xa2, 0x01, 0x00]));
    assert!(!taken(vec![0x18, 0xb0, 0x02, 0xa2, 0x01, 0x00]));
    assert!(taken(vec![0xa9, 0x80, 0x30, 0x02, 0xa2, 0x01, 0x00]));
    assert!(!taken(vec![0xa9, 0x01, 0x30, 0x02, 0xa2, 0x01, 0x00]));
    assert!(taken(vec![0xa9, 0x01, 0x10, 0x02, 0xa2, 0x01, 0x00]));
    assert!(!taken(vec![0xa9, 0x80, 0x10, 0x02, 0xa2, 0x01, 0x00]));
    assert!(taken(vec![0xb8, 0x50, 0x02, 0xa2, 0x01, 0x00]));
    assert!(!taken(vec![0xa9, 0x50, 0x69, 0x50, 0x50, 0x02, 0xa2, 0x01, 0x00]));
    assert!(taken(vec![0xa9, 0x50, 0x69, 0x50, 0x70, 0x02, 0xa2, 0x01, 0x00]));
    assert!(!taken(vec![0xb8, 0x70, 0x02, 0xa2, 0x01, 0x00]));
    assert!(taken(vec![0xa9, 0x01, 0xd0, 0x02, 0xa2, 0x01, 0x00]));
    assert!(!taken(vec![0xa9, 0x00, 0xd0, 0x02, 0xa2, 0x01, 0x00]));
}

#[test]
fn flag_instructions_touch_one_bit() {
    let mut cpu = CPU::new();
    cpu.load_and_run(vec![0x38, 0xf8, 0x00]);
    assert_eq!(cpu.status, 0x24 | 0x01 | 0x08);

    let mut cpu = CPU::new();
    cpu.load_and_run(vec![0x38, 0xf8, 0x18, 0xd8, 0x58, 0x00]);
    assert_eq!(cpu.status, 0x20);

    let mut cpu = CPU::new();
    cpu.load_and_run(vec![0x58, 0x78, 0x00]);
    assert_eq!(cpu.status, 0x24);

    let mut cpu = CPU::new();
    cpu.load_and_run(vec![0xa9, 0x50, 0x69, 0x50, 0xb8, 0x00]);
    assert_eq!(cpu.status & 0x40, 0x00);
    assert_eq!(cpu.status & 0x80, 0x80);
}

#[test]
fn set_flag_and_get_flag() {
    let mut cpu = CPU::new();
    assert!(!cpu.get_flag(0x01));
    assert!(cpu.get_flag(0x04));
    cpu.set_flag(0x01, true);
    assert_eq!(cpu.status, 0x25);
    assert!(cpu.get_flag(0x01));
    cpu.set_flag(0x04, false);
    assert_eq!(cpu.status, 0x21);
    cpu.update_zero_and_negative_flags(0x00);
    assert_eq!(cpu.status, 0x23);
    cpu.update_zero_and_negative_flags(0x90);
    assert_eq!(cpu.status, 0xA1);
}

#[test]
fn php_pushes_break_bits_and_plp_drops_them() {
    let mut cpu = CPU::new();
    cpu.load_and_run(vec![0x08, 0x68, 0x00]);
    assert_eq!(cpu.acc, 0x34);
    assert_eq!(cpu.status, 0x24);

    let mut cpu = CPU::new();
    cpu.load_and_run(vec![0xa9, 0xff, 0x48, 0x28, 0x00]);
    assert_eq!(cpu.status, 0xEF);

    let mut cpu = CPU::new();
    cpu.load_and_run(vec![0xa9, 0x00, 0x48, 0x28, 0x00]);
    assert_eq!(cpu.status, 0x20);
}

#[test]
fn pha_and_pla() {
    let mut cpu = CPU::new();
    cpu.load_and_run(vec![0xa9, 0x80, 0x48, 0xa9, 0x01, 0x68, 0x00]);
    assert_eq!(cpu.acc, 0x80);
    assert_eq!(cpu.status & 0x80, 0x80);
    assert_eq!(cpu.sp, 0xFD);
    assert_eq!(cpu.mem_read(0x01FD), 0x80);
}

#[test]
fn stack_pointer_wraps_on_pushes() {
    let mut cpu = CPU::new();
    let start = cpu.sp;
    assert_eq!(start, 0xFD);
    cpu.stack_push(0xAA);
    assert_eq!(cpu.sp, 0xFC);
    assert_eq!(cpu.mem_read(0x01FD), 0xAA);
    for i in 1..256u16 {
        cpu.stack_push(i as u8);
    }
    assert_eq!(cpu.sp, start);
    assert_eq!(cpu.mem_read(0x0100), 0xFD);
    assert_eq!(cpu.mem_read(0x01FF), 0xFE);
    assert_eq!(cpu.mem_read(0x01FE), 0xFF);
}

#[test]
fn stack_pointer_wraps_on_pops() {
    let mut cpu = CPU::new();
    cpu.mem_write(0x0100, 0x77);
    assert_eq!(cpu.sp, 0xFD);
    cpu.stack_pop();
    assert_eq!(cpu.sp, 0xFE);
    cpu.stack_pop();
    assert_eq!(cpu.sp, 0xFF);
    assert_eq!(cpu.stack_pop(), 0x77);
    assert_eq!(cpu.sp, 0x00);
    for _ in 3..255 {
        cpu.stack_pop();
    }
    assert_eq!(cpu.sp, 0xFC);
    cpu.stack_pop();
    assert_eq!(cpu.sp, 0xFD);
}

#[test]
fn stack_words_are_little_endian_in_memory() {
    let mut cpu = CPU::new();
    cpu.stack_push_u16(0x1234);
    assert_eq!(cpu.sp, 0xFB);
    assert_eq!(cpu.mem_read(0x01FD), 0x12);
    assert_eq!(cpu.mem_read(0x01FC), 0x34);
    assert_eq!(cpu.stack_pop_u16(), 0x1234);
    assert_eq!(cpu.sp, 0xFD);
}

#[test]
fn new_processor_state() {
    let mut cpu = CPU::new();
    assert_eq!(cpu.acc, 0);
    assert_eq!(cpu.index_x, 0);
    assert_eq!(cpu.index_y, 0);
    assert_eq!(cpu.status, 0x24);
    assert_eq!(cpu.sp, 0xFD);
    assert_eq!(cpu.pc, 0);
    assert_eq!(cpu.mem_read(0x0000), 0);
    assert_eq!(cpu.mem_read(0xFFFF), 0);
    cpu.mem_write(0xFFFF, 0x5A);
    assert_eq!(cpu.mem_read(0xFFFF), 0x5A);
}

#[test]
fn words_wrap_at_the_top_of_memory() {
    let mut cpu = CPU::new();
    cpu.mem_write_u16(0xFFFF, 0x1234);
    assert_eq!(cpu.mem_read(0xFFFF), 0x34);
    assert_eq!(cpu.mem_read(0x0000), 0x12);
    assert_eq!(cpu.mem_read_u16(0xFFFF), 0x1234);
}

#[test]
fn load_places_program_and_reset_vector() {
    let mut cpu = CPU::new();
    cpu.load(vec![0x11, 0x22, 0x33]);
    assert_eq!(cpu.mem_read(0x05FF), 0x00);
    assert_eq!(cpu.mem_read(0x0600), 0x11);
    assert_eq!(cpu.mem_read(0x0601), 0x22);
    assert_eq!(cpu.mem_read(0x0602), 0x33);
    assert_eq!(cpu.mem_read(0x0603), 0x00);
    assert_eq!(cpu.mem_read(0xFFFC), 0x00);
    assert_eq!(cpu.mem_read(0xFFFD), 0x06);
    assert_eq!(cpu.mem_read_u16(0xFFFC), 0x0600);
    assert_eq!(cpu.pc, 0);
}

#[test]
fn load_of_the_largest_program_keeps_the_reset_vector() {
    let mut cpu = CPU::new();
    cpu.load(vec![0xEA; 0xFA00]);
    assert_eq!(cpu.mem_read(0x0600), 0xEA);
    assert_eq!(cpu.mem_read(0xFFFB), 0xEA);
    assert_eq!(cpu.mem_read_u16(0xFFFC), 0x0600);
    assert_eq!(cpu.mem_read(0xFFFE), 0xEA);
    assert_eq!(cpu.mem_read(0xFFFF), 0xEA);
}

#[test]
fn reset_clears_registers_and_keeps_memory() {
    let mut cpu = CPU::new();
    cpu.mem_write(0x10, 0x99);
    cpu.mem_write_u16(0xFFFC, 0x8000);
    cpu.acc = 1;
    cpu.index_x = 2;
    cpu.index_y = 3;
    cpu.sp = 4;
    cpu.status = 0xFF;
    cpu.reset();
    assert_eq!(cpu.acc, 0);
    assert_eq!(cpu.index_x, 0);
    assert_eq!(cpu.index_y, 0);
    assert_eq!(cpu.sp, 0xFD);
    assert_eq!(cpu.status, 0x24);
    assert_eq!(cpu.pc, 0x8000);
    assert_eq!(cpu.mem_read(0x10), 0x99);
}

#[test]
fn unknown_opcode_stops_the_run() {
    let mut cpu = CPU::new();
    let outcome = cpu.load_and_run(vec![0xa9, 0x05, 0x02, 0xa9, 0x06, 0x00]);
    assert_eq!(outcome, Outcome::UnknownOpcode(0x02));
    assert_eq!(cpu.acc, 0x05);
    assert_eq!(cpu.pc, 0x0603);
}

#[test]
fn nop_only_advances() {
    let mut cpu = CPU::new();
    cpu.load(vec![0xea, 0x00]);
    cpu.reset();
    assert_eq!(cpu.step(), Outcome::Running);
    assert_eq!(cpu.pc, 0x0601);
    assert_eq!(cpu.status, 0x24);
    assert_eq!(cpu.acc, 0);
    assert_eq!(cpu.sp, 0xFD);
    assert_eq!(cpu.step(), Outcome::Break);
    assert_eq!(cpu.pc, 0x0602);
}

#[test]
fn run_with_budget_gives_up_on_an_endless_loop() {
    let mut cpu = CPU::new();
    cpu.load(vec![0xe8, 0x4c, 0x00, 0x06]);
    cpu.reset();
    let mut calls = 0u32;
    let outcome = cpu.run_with_budget(10, |_| calls += 1);
    assert_eq!(outcome, Outcome::Running);
    assert_eq!(calls, 10);
    assert_eq!(cpu.index_x, 5);
    assert_eq!(cpu.pc, 0x0600);
}

#[test]
fn run_with_budget_zero_does_nothing() {
    let mut cpu = CPU::new();
    cpu.load(vec![0xe8, 0x00]);
    cpu.reset();
    let outcome = cpu.run_with_budget(0, |_| {});
    assert_eq!(outcome, Outcome::Running);
    assert_eq!(cpu.pc, 0x0600);
    assert_eq!(cpu.index_x, 0);
}

#[test]
fn callback_runs_once_after_each_completed_instruction() {
    let mut cpu = CPU::new();
    cpu.load(vec![0xa9, 0x05, 0xaa, 0xe8, 0x00]);
    cpu.reset();
    let mut seen: Vec<(u16, u8)> = Vec::new();
    let outcome = cpu.run_with_callback(|cpu| seen.push((cpu.pc, cpu.index_x)));
    assert_eq!(outcome, Outcome::Break);
    assert_eq!(seen, vec![(0x0602, 0), (0x0603, 5), (0x0604, 6)]);
}

#[test]
fn callback_may_patch_the_processor() {
    let mut cpu = CPU::new();
    cpu.load(vec![0xa9, 0x05, 0xaa, 0x00]);
    cpu.reset();
    let outcome = cpu.run_with_callback(|cpu| cpu.acc = 0x42);
    assert_eq!(outcome, Outcome::Break);
    assert_eq!(cpu.index_x, 0x42);
}

#[test]
fn callback_is_not_called_for_a_faulted_step() {
    let mut cpu = CPU::new();
    cpu.load(vec![0x02]);
    cpu.reset();
    let mut calls = 0u32;
    let outcome = cpu.run_with_callback(|_| calls += 1);
    assert_eq!(outcome, Outcome::UnknownOpcode(0x02));
    assert_eq!(calls, 0);
}

#[test]
fn run_matches_repeated_steps() {
    let program = vec![0xa2, 0x10, 0xca, 0xd0, 0xfd, 0xa9, 0x33, 0x00];
    let mut ran = CPU::new();
    ran.load(program.clone());
    ran.reset();
    assert_eq!(ran.run(), Outcome::Break);

    let mut stepped = CPU::new();
    stepped.load(program);
    stepped.reset();
    let mut steps = 0;
    while stepped.step() == Outcome::Running {
        steps += 1;
    }
    assert_eq!(steps, 34);
    assert_eq!(ran.acc, stepped.acc);
    assert_eq!(ran.index_x, stepped.index_x);
    assert_eq!(ran.status, stepped.status);
    assert_eq!(ran.pc, stepped.pc);
    assert_eq!(ran.sp, stepped.sp);
}

#[test]
fn execute_performs_one_instruction_body() {
    let mut cpu = CPU::new();
    cpu.mem_write(0x0700, 0x2A);
    cpu.pc = 0x0700;
    cpu.execute(0xA9, &AddressingMode::Immediate);
    assert_eq!(cpu.acc, 0x2A);
    assert_eq!(cpu.pc, 0x0700);
    cpu.execute(0xEA, &AddressingMode::NoneAddressing);
    assert_eq!(cpu.acc, 0x2A);
    cpu.execute(0xAA, &AddressingMode::NoneAddressing);
    assert_eq!(cpu.index_x, 0x2A);
}

#[test]
fn brk_interrupt_enters_the_handler_and_rti_leaves_it() {
    let mut cpu = CPU::new();
    cpu.mem_write_u16(0xFFFE, 0x1234);
    cpu.mem_write(0x1234, 0x40);
    cpu.load(vec![0xa9, 0x05, 0x00, 0xff, 0xa2, 0x07, 0x00]);
    cpu.reset();
    cpu.status = 0x20;
    assert_eq!(cpu.run(), Outcome::Break);
    assert_eq!(cpu.pc, 0x0603);
    cpu.brk_interrupt();
    assert_eq!(cpu.pc, 0x1234);
    assert_eq!(cpu.sp, 0xFA);
    assert_eq!(cpu.status, 0x24);
    assert_eq!(cpu.mem_read(0x01FD), 0x06);
    assert_eq!(cpu.mem_read(0x01FC), 0x04);
    assert_eq!(cpu.mem_read(0x01FB), 0x30);
    assert_eq!(cpu.run(), Outcome::Break);
    assert_eq!(cpu.index_x, 0x07);
    assert_eq!(cpu.status, 0x20);
    assert_eq!(cpu.sp, 0xFD);
    assert_eq!(cpu.pc, 0x0607);
}
