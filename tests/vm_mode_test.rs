use vm6502::Mode::{
    Absolute, AbsoluteX, AbsoluteY, Accumulator, Immediate, Implied, Indirect, IndirectX,
    IndirectY, Relative, ZeroPage, ZeroPageX, ZeroPageY,
};
use vm6502::{
    classify, HeapInterface, InstructionController, Mode, StackInterface,
    VirtualMachine,
};

const VALID_OPCODES: [u8; 151] = [
    0x00, 0x01, 0x05, 0x06, 0x08, 0x09, 0x0A, 0x0D, 0x0E, 0x10, 0x11, 0x15, 0x16, 0x18, 0x19, 0x1D,
    0x1E, 0x20, 0x21, 0x24, 0x25, 0x26, 0x28, 0x29, 0x2A, 0x2C, 0x2D, 0x2E, 0x30, 0x31, 0x35, 0x36,
    0x38, 0x39, 0x3D, 0x3E, 0x40, 0x41, 0x45, 0x46, 0x48, 0x49, 0x4A, 0x4C, 0x4D, 0x4E, 0x50, 0x51,
    0x55, 0x56, 0x58, 0x59, 0x5D, 0x5E, 0x60, 0x61, 0x65, 0x66, 0x68, 0x69, 0x6A, 0x6C, 0x6D, 0x6E,
    0x70, 0x71, 0x75, 0x76, 0x78, 0x79, 0x7D, 0x7E, 0x81, 0x84, 0x85, 0x86, 0x88, 0x8A, 0x8C, 0x8D,
    0x8E, 0x90, 0x91, 0x94, 0x95, 0x96, 0x98, 0x99, 0x9A, 0x9D, 0xA0, 0xA1, 0xA2, 0xA4, 0xA5, 0xA6,
    0xA8, 0xA9, 0xAA, 0xAC, 0xAD, 0xAE, 0xB0, 0xB1, 0xB4, 0xB5, 0xB6, 0xB8, 0xB9, 0xBA, 0xBC, 0xBD,
    0xBE, 0xC0, 0xC1, 0xC4, 0xC5, 0xC6, 0xC8, 0xC9, 0xCA, 0xCC, 0xCD, 0xCE, 0xD0, 0xD1, 0xD5, 0xD6,
    0xD8, 0xD9, 0xDD, 0xDE, 0xE0, 0xE1, 0xE4, 0xE5, 0xE6, 0xE8, 0xE9, 0xEA, 0xEC, 0xED, 0xEE, 0xF0,
    0xF1, 0xF5, 0xF6, 0xF8, 0xF9, 0xFD, 0xFE,
];

fn op_modes() -> Vec<Mode> {
    vec![
        Implied, IndirectX, ZeroPage, ZeroPage, Implied, Immediate, Accumulator, Absolute, Absolute,
        Relative, IndirectY, ZeroPageX, ZeroPageX, Implied, AbsoluteY, AbsoluteX, AbsoluteX,
        Absolute, IndirectX, ZeroPage, ZeroPage, ZeroPage, Implied, Immediate, Accumulator,
        Absolute, Absolute, Absolute, Relative, IndirectY, ZeroPageX, ZeroPageX, Implied,
        AbsoluteY, AbsoluteX, AbsoluteX, Implied, IndirectX, ZeroPage, ZeroPage, Implied,
        Immediate, Accumulator, Absolute, Absolute, Absolute, Relative, IndirectY, ZeroPageX,
        ZeroPageX, Implied, AbsoluteY, AbsoluteX, AbsoluteX, Implied, IndirectX, ZeroPage,
        ZeroPage, Implied, Immediate, Accumulator, Indirect, Absolute, Absolute, Relative,
        IndirectY, ZeroPageX, ZeroPageX, Implied, AbsoluteY, AbsoluteX, AbsoluteX, IndirectX,
        ZeroPage, ZeroPage, ZeroPage, Implied, Implied, Absolute, Absolute, Absolute, Relative,
        IndirectY, ZeroPageX, ZeroPageX, ZeroPageY, Implied, AbsoluteY, Implied, AbsoluteX,
        Immediate, IndirectX, Immediate, ZeroPage, ZeroPage, ZeroPage, Implied, Immediate,
        Implied, Absolute, Absolute, Absolute, Relative, IndirectY, ZeroPageX, ZeroPageX,
        ZeroPageY, Implied, AbsoluteY, Implied, AbsoluteX, AbsoluteX, AbsoluteY, Immediate,
        IndirectX, ZeroPage, ZeroPage, ZeroPage, Implied, Immediate, Implied, Absolute, Absolute,
        Absolute, Relative, IndirectY, ZeroPageX, ZeroPageX, Implied, AbsoluteY, AbsoluteX,
        AbsoluteX, Immediate, IndirectX, ZeroPage, ZeroPage, ZeroPage, Implied, Immediate,
        Implied, Absolute, Absolute, Absolute, Relative, IndirectY, ZeroPageX, ZeroPageX,
        Implied, AbsoluteY, AbsoluteX, AbsoluteX,
    ]
}

#[test]
fn test_mode() {
    let mut vm = VirtualMachine::new();
    let op_modes = op_modes();
    assert_eq!(op_modes.len(), VALID_OPCODES.len());

    for (i, op) in VALID_OPCODES.iter().enumerate() {
        vm.active_byte = *op;
        let mode = vm.set_mode();

        assert_eq!(mode, Ok(op_modes[i]));
    }
}

#[test]
fn classifier_is_total_and_repeatable() {
    let mut ok = 0;
    for op in 0..=255u8 {
        let first = classify(op);
        assert_eq!(first, classify(op));
        match first {
            Ok(_) => ok += 1,
            Err(e) => {
                assert_eq!(e.opcode, op);
                assert_eq!((e.a, e.b, e.cc), (op >> 5, (op >> 2) & 7, op & 3));
            }
        }
        if op & 3 == 3 {
            assert!(first.is_err());
        }
    }
    assert!(ok >= VALID_OPCODES.len());
}

#[test]
fn failed_set_mode_keeps_previous_mode() {
    let mut vm = VirtualMachine::new();
    vm.active_byte = 0x69;
    assert_eq!(vm.set_mode(), Ok(Mode::Immediate));
    vm.active_byte = 0x89;
    assert!(vm.set_mode().is_err());
    assert_eq!(vm.addr_mode, Mode::Immediate);
}

fn resolve_with(mode: Mode, program: &str, x: u8, y: u8) -> (u16, u16, VirtualMachine) {
    let mut vm = VirtualMachine::new();
    vm.set_program(0x0100, program).unwrap();
    vm.registers.pc = 0x0100;
    vm.registers.x = x;
    vm.registers.y = y;
    vm.addr_mode = mode;
    let addr = vm.fetch_addr();
    let pc = vm.registers.pc;
    (addr, pc, vm)
}

#[test]
fn resolver_advances_pc_by_operand_length() {
    let cases: [(Mode, u16); 13] = [
        (Mode::Accumulator, 0),
        (Mode::Implied, 0),
        (Mode::Immediate, 1),
        (Mode::ZeroPage, 1),
        (Mode::ZeroPageX, 1),
        (Mode::ZeroPageY, 1),
        (Mode::Relative, 1),
        (Mode::Absolute, 2),
        (Mode::AbsoluteX, 2),
        (Mode::AbsoluteY, 2),
        (Mode::Indirect, 2),
        (Mode::IndirectX, 1),
        (Mode::IndirectY, 1),
    ];
    for (mode, len) in cases {
        for (x, y) in [(0u8, 0u8), (0xFF, 0x10)] {
            let (_, pc, _) = resolve_with(mode, "EA3412", x, y);
            assert_eq!(pc, 0x0100 + len, "{:?}", mode);
        }
    }
}

#[test]
fn resolver_effective_addresses() {
    // Operand bytes follow the opcode at 0x0100.
    assert_eq!(resolve_with(Mode::Immediate, "EA3412", 1, 2).0, 0x0101);
    assert_eq!(resolve_with(Mode::ZeroPage, "EA3412", 1, 2).0, 0x0034);
    assert_eq!(resolve_with(Mode::ZeroPageX, "EAFF12", 2, 3).0, 0x0101);
    assert_eq!(resolve_with(Mode::ZeroPageY, "EA3412", 1, 2).0, 0x0036);
    assert_eq!(resolve_with(Mode::Absolute, "EA3412", 1, 2).0, 0x1234);
    assert_eq!(resolve_with(Mode::AbsoluteX, "EAFF12", 1, 2).0, 0x1300);
    assert_eq!(resolve_with(Mode::AbsoluteY, "EA3412", 1, 2).0, 0x1236);
    assert_eq!(resolve_with(Mode::Indirect, "EA3412", 1, 2).0, 0x1234);
    assert_eq!(resolve_with(Mode::Relative, "EAFE", 1, 2).0, 0x00FE);

    let (_, _, mut vm) = resolve_with(Mode::Implied, "EA", 0, 0);
    vm.set_program(0x0022, "7856").unwrap();
    vm.set_program(0x0200, "EA20").unwrap();
    vm.registers.pc = 0x0200;
    vm.registers.x = 2;
    vm.addr_mode = Mode::IndirectX;
    assert_eq!(vm.fetch_addr(), 0x5678);
    assert_eq!(vm.mode_addr, 0x5678);

    vm.registers.pc = 0x0200;
    vm.registers.y = 0x10;
    vm.set_program(0x0020, "F012").unwrap();
    vm.addr_mode = Mode::IndirectY;
    assert_eq!(vm.fetch_addr(), 0x1300);
}

#[test]
fn apply_lands_at_base_plus_index() {
    for (mode, expect) in [
        (Mode::ZeroPageX, 0x13u16),
        (Mode::ZeroPageY, 0x15),
        (Mode::Absolute, 0x10),
    ] {
        let mut vm = VirtualMachine::new();
        vm.registers.x = 3;
        vm.registers.y = 5;
        vm.addr_mode = mode;
        vm.set_program(expect, "40").unwrap();
        let r = vm.apply(0x10, |b: u8| b.wrapping_add(1));
        assert_eq!(r, 0x41);
        for virt in 0x10u16..0x18 {
            let phys = virt as usize + vm.heap_bounds.0;
            let want = if virt == expect { 0x41 } else { 0 };
            assert_eq!(vm.flatmap[phys], want, "{:?} at {:#x}", mode, virt);
        }
    }
    let mut vm = VirtualMachine::new();
    vm.addr_mode = Mode::Accumulator;
    vm.registers.ac = 0x21;
    assert_eq!(vm.apply(0x10, |b: u8| b << 1), 0x42);
    assert_eq!(vm.registers.ac, 0x42);
    assert!(vm.flatmap.iter().all(|b| *b == 0));
}

#[test]
fn fetch_byte_reads_immediate_operand() {
    let mut vm = VirtualMachine::new();
    vm.set_heap(0x0000, 0x69);
    vm.set_heap(0x0001, 0x01);
    assert_eq!(vm.flatmap[0x0201], 0x01);
    vm.registers.pc = 0x00;
    vm.addr_mode = Mode::Immediate;
    assert_eq!(vm.fetch_byte(), 0x01);
    assert_eq!(vm.registers.pc, 0x01);
}

#[test]
fn stack_round_trip_reverses() {
    let mut vm = VirtualMachine::new();
    vm.registers.sp = 4;
    let bytes: Vec<u8> = (1..=200).collect();
    for b in &bytes {
        vm.push(*b);
    }
    assert_eq!(vm.registers.sp, 204);
    assert_eq!(vm.peek(), 200);
    let mut popped = Vec::new();
    for _ in 0..bytes.len() {
        popped.push(vm.pop());
    }
    let mut reversed = bytes.clone();
    reversed.reverse();
    assert_eq!(popped, reversed);
    assert_eq!(vm.registers.sp, 4);
}

#[test]
fn stack_pointer_saturates() {
    let mut vm = VirtualMachine::new();
    assert_eq!(vm.pop(), 0);
    assert_eq!(vm.registers.sp, 0);
    vm.registers.sp = 255;
    vm.push(7);
    assert_eq!(vm.registers.sp, 255);
    assert_eq!(vm.flatmap[0x01FF - 255], 7);
}
