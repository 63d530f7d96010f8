use cpu6502::addressing::AddressingMode;
use cpu6502::cpu::{CpuError, CPU};

fn cpu_at(pc: u16, x: u8, y: u8) -> CPU {
    let mut cpu = CPU::new();
    cpu.program_counter = pc;
    cpu.register_x = x;
    cpu.register_y = y;
    cpu
}

#[test]
fn immediate_is_program_counter() {
    let cpu = cpu_at(0x1234, 0, 0);
    assert_eq!(cpu.get_operand_address(&AddressingMode::Immediate), Ok(0x1234));
}

#[test]
fn resolution_is_repeatable() {
    let mut cpu = cpu_at(0x0200, 0x05, 0x07);
    cpu.write_memory(0x0200, 0x40);
    cpu.write_memory(0x0201, 0x12);
    let modes = [
        AddressingMode::Immediate,
        AddressingMode::ZeroPage,
        AddressingMode::ZeroPageX,
        AddressingMode::ZeroPageY,
        AddressingMode::Absolute,
        AddressingMode::AbsoluteX,
        AddressingMode::AbsoluteY,
        AddressingMode::IndirectX,
        AddressingMode::IndirectY,
    ];
    for mode in modes.iter() {
        let first = cpu.get_operand_address(mode);
        let second = cpu.get_operand_address(mode);
        assert!(first.is_ok());
        assert_eq!(first, second);
    }
    assert_eq!(cpu.program_counter, 0x0200);
    assert_eq!(cpu.register_x, 0x05);
}

#[test]
fn none_addressing_is_rejected() {
    let cpu = cpu_at(0x0200, 0, 0);
    assert_eq!(
        cpu.get_operand_address(&AddressingMode::NoneAddressing),
        Err(CpuError::UnsupportedAddressingMode(AddressingMode::NoneAddressing))
    );
}

#[test]
fn zero_page_uses_operand_byte() {
    let mut cpu = cpu_at(0x0300, 0, 0);
    cpu.write_memory(0x0300, 0x8f);
    assert_eq!(cpu.get_operand_address(&AddressingMode::ZeroPage), Ok(0x008f));
}

#[test]
fn zero_page_x_wraps_in_page_zero() {
    let mut cpu = cpu_at(0x0300, 0x20, 0);
    cpu.write_memory(0x0300, 0xf0);
    assert_eq!(cpu.get_operand_address(&AddressingMode::ZeroPageX), Ok(0x0010));
}

#[test]
fn zero_page_y_wraps_in_page_zero() {
    let mut cpu = cpu_at(0x0300, 0, 0xff);
    cpu.write_memory(0x0300, 0xff);
    assert_eq!(cpu.get_operand_address(&AddressingMode::ZeroPageY), Ok(0x00fe));
}

#[test]
fn absolute_reads_little_endian() {
    let mut cpu = cpu_at(0x0300, 0, 0);
    cpu.write_memory(0x0300, 0x34);
    cpu.write_memory(0x0301, 0x12);
    assert_eq!(cpu.get_operand_address(&AddressingMode::Absolute), Ok(0x1234));
}

#[test]
fn absolute_x_crosses_page() {
    let mut cpu = cpu_at(0x0300, 0x20, 0);
    cpu.write_memory(0x0300, 0xf0);
    cpu.write_memory(0x0301, 0x12);
    assert_eq!(cpu.get_operand_address(&AddressingMode::AbsoluteX), Ok(0x1310));
}

#[test]
fn absolute_y_wraps_at_end_of_memory() {
    let mut cpu = cpu_at(0x0300, 0, 0x02);
    cpu.write_memory(0x0300, 0xff);
    cpu.write_memory(0x0301, 0xff);
    assert_eq!(cpu.get_operand_address(&AddressingMode::AbsoluteY), Ok(0x0001));
}

#[test]
fn indirect_x_pointer_wraps_in_page_zero() {
    let mut cpu = cpu_at(0x0300, 0x01, 0);
    cpu.write_memory(0x0300, 0xfe);
    cpu.write_memory(0x00ff, 0x34);
    cpu.write_memory(0x0000, 0x12);
    cpu.write_memory(0x0100, 0x99);
    assert_eq!(cpu.get_operand_address(&AddressingMode::IndirectX), Ok(0x1234));
}

#[test]
fn indirect_x_plain() {
    let mut cpu = cpu_at(0x0300, 0x04, 0);
    cpu.write_memory(0x0300, 0x20);
    cpu.write_memory(0x0024, 0x74);
    cpu.write_memory(0x0025, 0x20);
    assert_eq!(cpu.get_operand_address(&AddressingMode::IndirectX), Ok(0x2074));
}

#[test]
fn indirect_y_high_byte_wraps_in_page_zero() {
    let mut cpu = cpu_at(0x0300, 0, 0x10);
    cpu.write_memory(0x0300, 0xff);
    cpu.write_memory(0x00ff, 0xf8);
    cpu.write_memory(0x0000, 0x12);
    cpu.write_memory(0x0100, 0x99);
    assert_eq!(cpu.get_operand_address(&AddressingMode::IndirectY), Ok(0x1308));
}

#[test]
fn lda_indirect_y_reads_through_pointer() {
    let mut cpu = CPU::new();
    cpu.write_memory(0x0040, 0x00);
    cpu.write_memory(0x0041, 0x20);
    cpu.write_memory(0x2000, 0x77);
    assert_eq!(cpu.load_and_run(vec![0xb1, 0x40, 0x00]), Ok(()));
    assert_eq!(cpu.register_a, 0x77);
}
