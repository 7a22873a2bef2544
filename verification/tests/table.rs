use sm83::instructions::{decode, execute, operand_byte, operand_word, Instruction, Operation};
use sm83::processor::Processor;
use sm83::registers::Register;

fn entry(operation: Operation, bytes: u8, cycles: u8) -> Option<Instruction> {
    Some(Instruction { operation, bytes, cycles })
}

#[test]
fn operands_come_out_of_the_immediate() {
    assert_eq!(operand_byte(0xAB00), 0xAB);
    assert_eq!(operand_byte(0xABCD), 0xAB);
    assert_eq!(operand_word(0xCDAB), 0xABCD);
    assert_eq!(operand_word(0x0001), 0x0100);
}

#[test]
fn the_table_binds_the_control_and_rotate_opcodes() {
    assert_eq!(decode(0x00), entry(Operation::Nop, 1, 4));
    assert_eq!(decode(0x07), entry(Operation::Rlca, 1, 4));
    assert_eq!(decode(0x0F), entry(Operation::Rrca, 1, 4));
    assert_eq!(decode(0x76), entry(Operation::Halt, 1, 4));
}

#[test]
fn the_table_binds_the_8_bit_increments_and_decrements() {
    let registers = [
        (0x04u8, Register::B),
        (0x0C, Register::C),
        (0x14, Register::D),
        (0x1C, Register::E),
        (0x24, Register::H),
        (0x2C, Register::L),
        (0x3C, Register::A),
    ];
    for (opcode, register) in registers {
        assert_eq!(decode(opcode), entry(Operation::IncreaseRegister(register), 1, 4));
        assert_eq!(decode(opcode + 1), entry(Operation::DecreaseRegister(register), 1, 4));
        assert_eq!(decode(opcode + 2), entry(Operation::LoadRegisterValue(register), 2, 8));
    }
    assert_eq!(decode(0x34), entry(Operation::IncHlp, 1, 12));
    assert_eq!(decode(0x35), entry(Operation::DecHlp, 1, 12));
    assert_eq!(decode(0x36), entry(Operation::LdHlpN8, 2, 12));
}

#[test]
fn the_table_binds_the_16_bit_opcodes() {
    let pairs = [
        (0x00u8, Register::B, Register::C),
        (0x10, Register::D, Register::E),
        (0x20, Register::H, Register::L),
    ];
    for (row, high, low) in pairs {
        assert_eq!(decode(row + 0x01), entry(Operation::LoadDoubleRegisterValue(high, low), 3, 12));
        assert_eq!(decode(row + 0x03), entry(Operation::IncreaseDoubleRegister(high, low), 1, 8));
        assert_eq!(decode(row + 0x09), entry(Operation::AddHlDoubleRegister(high, low), 1, 8));
        assert_eq!(decode(row + 0x0B), entry(Operation::DecreaseDoubleRegister(high, low), 1, 8));
    }
    assert_eq!(decode(0x31), entry(Operation::LdSpN16, 3, 12));
    assert_eq!(decode(0x33), entry(Operation::IncSp, 1, 8));
    assert_eq!(decode(0x39), entry(Operation::AddHlSp, 1, 8));
    assert_eq!(decode(0x3B), entry(Operation::DecSp, 1, 8));
}

#[test]
fn the_table_binds_the_stores_of_a() {
    assert_eq!(
        decode(0x02),
        entry(Operation::LoadDoubleRegisterpA(Register::B, Register::C), 1, 8)
    );
    assert_eq!(
        decode(0x12),
        entry(Operation::LoadDoubleRegisterpA(Register::D, Register::E), 1, 8)
    );
    assert_eq!(decode(0x22), entry(Operation::LdHliA, 1, 8));
    assert_eq!(decode(0x32), entry(Operation::LdHldA, 1, 8));
    assert_eq!(decode(0xE0), entry(Operation::LdhR8A, 2, 12));
    assert_eq!(decode(0xE2), entry(Operation::LdhCA, 1, 8));
    assert_eq!(decode(0xEA), entry(Operation::LdR16A, 3, 16));
    assert_eq!(decode(0xF0), entry(Operation::LdhAR8, 2, 12));
    assert_eq!(decode(0xF2), entry(Operation::LdhAC, 1, 8));
}

#[test]
fn the_table_binds_the_load_block() {
    let fields = [
        Some(Register::B),
        Some(Register::C),
        Some(Register::D),
        Some(Register::E),
        Some(Register::H),
        Some(Register::L),
        None,
        Some(Register::A),
    ];
    for (row, target) in fields.iter().enumerate() {
        for (column, source) in fields.iter().enumerate() {
            let opcode = 0x40 + 8 * row as u8 + column as u8;
            let expected = match (target, source) {
                (Some(to), Some(from)) => entry(Operation::LoadRegisterRegister(*to, *from), 1, 4),
                (Some(to), None) => entry(Operation::LoadRegisterHlp(*to), 1, 8),
                (None, Some(from)) => entry(Operation::LoadHlpRegister(*from), 1, 8),
                (None, None) => entry(Operation::Halt, 1, 4),
            };
            assert_eq!(decode(opcode), expected);
        }
    }
    assert_eq!(
        decode(0x78),
        entry(Operation::LoadRegisterRegister(Register::A, Register::B), 1, 4)
    );
    assert_eq!(decode(0x7E), entry(Operation::LoadRegisterHlp(Register::A), 1, 8));
    assert_eq!(decode(0x70), entry(Operation::LoadHlpRegister(Register::B), 1, 8));
}

#[test]
fn the_table_leaves_the_other_opcodes_unbound() {
    let bound = (0..=255u8).filter(|opcode| decode(*opcode).is_some()).count();
    assert_eq!(bound, 116);
    for opcode in [0x08u8, 0x0A, 0x10, 0x17, 0x18, 0x27, 0x3F, 0x80, 0xC3, 0xCB, 0xD3, 0xFA, 0xFF] {
        assert_eq!(decode(opcode), None);
    }
}

#[test]
fn no_operation_is_bound_twice() {
    let bound: Vec<Instruction> = (0..=255u8).filter_map(decode).collect();
    for (at, first) in bound.iter().enumerate() {
        assert!(first.bytes >= 1 && first.bytes <= 3);
        for second in &bound[at + 1..] {
            assert_ne!(first.operation, second.operation);
        }
    }
}

#[test]
fn execute_runs_the_bound_routine() {
    let mut cpu = Processor::new();
    execute(&mut cpu, Operation::LoadDoubleRegisterValue(Register::H, Register::L), 0x00C0);
    assert_eq!(cpu.read_pair(Register::H, Register::L), 0xC000);
    execute(&mut cpu, Operation::LoadRegisterValue(Register::A), 0x5500);
    execute(&mut cpu, Operation::LoadHlpRegister(Register::A), 0);
    assert_eq!(cpu.read_memory(0xC000), 0x55);
    execute(&mut cpu, Operation::IncHlp, 0);
    execute(&mut cpu, Operation::LoadRegisterHlp(Register::E), 0);
    assert_eq!(cpu.read_register(Register::E), 0x56);
    execute(&mut cpu, Operation::LoadRegisterRegister(Register::D, Register::E), 0);
    assert_eq!(cpu.read_pair(Register::D, Register::E), 0x5656);
    execute(&mut cpu, Operation::LdSpN16, 0xFEFF);
    assert_eq!(cpu.stack_pointer, 0xFFFE);
    execute(&mut cpu, Operation::IncSp, 0);
    execute(&mut cpu, Operation::IncSp, 0);
    assert_eq!(cpu.stack_pointer, 0x0000);
    execute(&mut cpu, Operation::DecSp, 0);
    assert_eq!(cpu.stack_pointer, 0xFFFF);
    execute(&mut cpu, Operation::Nop, 0xFFFF);
    execute(&mut cpu, Operation::Halt, 0);
    assert!(cpu.halted);
}
