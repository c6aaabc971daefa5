use vm6502::{
    status_mask, BoundsPolicy, HeapInterface, InstructionController, Status, StepError, VirtualMachine,
};

#[test]
fn adc_imd() {
    let mut vm = VirtualMachine::new();
    vm.set_program(0x0000, "69F06901").unwrap();

    vm.registers.ac = 0x0F;
    vm.step().unwrap();
    assert_eq!(vm.registers.ac, 0xFF);

    vm.step().unwrap();
    assert_eq!(vm.registers.sr & status_mask(Status::Carry), 1);
    assert_eq!(vm.registers.ac, 0x00);
}

#[test]
fn and_imd() {
    let mut vm = VirtualMachine::new();
    vm.set_program(0x0000, "29FF29FF2900").unwrap();
    println!("Program: {:?}...", &vm.flatmap[0x0200..0x0203]);
    vm.registers.ac = 0x00;

    vm.step().unwrap();
    assert_eq!(vm.registers.ac, 0x00);
    assert_eq!(vm.get_status(Status::Zero), true);

    vm.registers.ac = 0xFF;
    println!("PC byte 0: {}", vm.get_heap(vm.registers.pc));
    println!("PC byte 1: {}", vm.get_heap(vm.registers.pc + 1));
    vm.step().unwrap();
    assert_eq!(vm.registers.ac, 0xFF & 0xFF);
    assert_eq!(vm.get_status(Status::Zero), false);

    vm.step().unwrap();
    assert_eq!(vm.registers.ac, 0x00);
    assert_eq!(vm.get_status(Status::Zero), true);
}

#[test]
fn asl_cover() {
    let mut vm = VirtualMachine::new();
    let prog = "0A0A0A0A0A0A0A0A0A";
    vm.set_program(0x0000, prog).unwrap();
    vm.registers.ac = 0x01;

    for i in 1..8 {
        vm.step().unwrap();
        println!("i: {}, ac: {}", 1 << i, vm.registers.ac);

        assert_eq!(vm.registers.ac, 1 << i);
    }
}

#[test]
fn two_immediate_adds_count_two_cycles() {
    let mut vm = VirtualMachine::new();
    vm.set_program(0x0000, "69016901").unwrap();
    let before = vm.cycles;
    vm.step().unwrap();
    let after = vm.step().unwrap();
    assert_eq!(vm.registers.ac, 0x02);
    assert_eq!(after, before + 2);
    assert_eq!(vm.cycles, before + 2);
    assert_eq!(vm.registers.pc, 4);
}

#[test]
fn and_zero_sets_zero_clears_negative() {
    for ac in [0x00u8, 0x01, 0x80, 0xFF] {
        let mut vm = VirtualMachine::new();
        vm.set_program(0x0000, "2900").unwrap();
        vm.registers.ac = ac;
        vm.registers.sr = status_mask(Status::Negative);
        vm.step().unwrap();
        assert_eq!(vm.registers.ac, 0);
        assert!(vm.get_status(Status::Zero));
        assert!(!vm.get_status(Status::Negative));
    }
}

#[test]
fn and_all_ones_keeps_nonzero_accumulator() {
    let mut vm = VirtualMachine::new();
    vm.set_program(0x0000, "29FF").unwrap();
    vm.registers.ac = 0x81;
    vm.registers.sr = status_mask(Status::Zero);
    vm.step().unwrap();
    assert_eq!(vm.registers.ac, 0x81);
    assert!(!vm.get_status(Status::Zero));
    assert!(vm.get_status(Status::Negative));
}

#[test]
fn adc_sets_overflow_on_signed_wrap() {
    let mut vm = VirtualMachine::new();
    vm.set_program(0x0000, "6901").unwrap();
    vm.registers.ac = 0x7F;
    vm.step().unwrap();
    assert_eq!(vm.registers.ac, 0x80);
    assert!(vm.get_status(Status::Overflow));
    assert!(vm.get_status(Status::Negative));
    assert!(!vm.get_status(Status::Carry));
}

#[test]
fn sbc_with_carry_set_subtracts() {
    let mut vm = VirtualMachine::new();
    // SEC; SBC #$03
    vm.set_program(0x0000, "38E903").unwrap();
    vm.registers.ac = 0x10;
    vm.step().unwrap();
    vm.step().unwrap();
    assert_eq!(vm.registers.ac, 0x0D);
    assert!(vm.get_status(Status::Carry));
}

#[test]
fn lda_sta_zero_page_and_absolute_x() {
    let mut vm = VirtualMachine::new();
    // LDA #$42; STA $10; LDX #$05; STA $1000,X; LDY $10
    vm.set_program(0x0000, "A9428510A2059D0010A410").unwrap();
    for _ in 0..5 {
        vm.step().unwrap();
    }
    assert_eq!(vm.get_heap(0x0010), 0x42);
    assert_eq!(vm.get_heap(0x1005), 0x42);
    assert_eq!(vm.registers.x, 0x05);
    assert_eq!(vm.registers.y, 0x42);
    assert_eq!(vm.cycles, 5);
}

#[test]
fn cmp_sets_carry_and_zero() {
    let mut vm = VirtualMachine::new();
    // CMP #$10; CMP #$20
    vm.set_program(0x0000, "C910C920").unwrap();
    vm.registers.ac = 0x10;
    vm.step().unwrap();
    assert!(vm.get_status(Status::Zero));
    assert!(vm.get_status(Status::Carry));
    vm.step().unwrap();
    assert!(!vm.get_status(Status::Zero));
    assert!(!vm.get_status(Status::Carry));
    assert!(vm.get_status(Status::Negative));
}

#[test]
fn branch_taken_and_not_taken() {
    let mut vm = VirtualMachine::new();
    // BEQ +2 (Zero clear: not taken) ; BNE +2 (taken) ; two filler bytes ; NOP
    vm.set_program(0x0000, "F002D002FFFFEA").unwrap();
    vm.step().unwrap();
    assert_eq!(vm.registers.pc, 2);
    vm.step().unwrap();
    assert_eq!(vm.registers.pc, 6);
    // A backward branch: BNE -2 at 6 lands on 6.
    vm.set_program(0x0006, "D0FE").unwrap();
    vm.step().unwrap();
    assert_eq!(vm.registers.pc, 6);
}

#[test]
fn jmp_absolute_and_indirect() {
    let mut vm = VirtualMachine::new();
    // JMP $0010 ; at $0010: JMP ($0020) ; at $0020: $0034
    vm.set_program(0x0000, "4C1000").unwrap();
    vm.set_program(0x0010, "6C2000").unwrap();
    vm.set_program(0x0020, "3400").unwrap();
    vm.step().unwrap();
    assert_eq!(vm.registers.pc, 0x0010);
    vm.step().unwrap();
    assert_eq!(vm.registers.pc, 0x0034);
}

#[test]
fn jsr_then_rts_returns_after_call() {
    let mut vm = VirtualMachine::new();
    // JSR $0010 ; NOP ; ... at $0010: RTS
    vm.set_program(0x0000, "201000EA").unwrap();
    vm.set_program(0x0010, "60").unwrap();
    vm.step().unwrap();
    assert_eq!(vm.registers.pc, 0x0010);
    assert_eq!(vm.registers.sp, 2);
    vm.step().unwrap();
    assert_eq!(vm.registers.pc, 0x0003);
    assert_eq!(vm.registers.sp, 0);
}

#[test]
fn brk_then_rti_resumes() {
    let mut vm = VirtualMachine::new();
    vm.set_interrupt_vectors(0x0000, 0x0000, 0x0040);
    vm.set_program(0x0000, "00").unwrap();
    vm.set_program(0x0040, "40").unwrap();
    vm.step().unwrap();
    assert_eq!(vm.registers.pc, 0x0040);
    assert!(vm.get_status(Status::Interrupt));
    assert_eq!(vm.registers.sp, 3);
    vm.step().unwrap();
    assert_eq!(vm.registers.pc, 0x0002);
    assert!(!vm.get_status(Status::Interrupt));
    assert_eq!(vm.registers.sp, 0);
}

#[test]
fn pha_pla_and_transfers() {
    let mut vm = VirtualMachine::new();
    // LDA #$80; PHA; LDA #$00; PLA; TAX; INX; TXA; TAY; DEY; TSX
    vm.set_program(0x0000, "A98048A90068AAE88AA888BA").unwrap();
    for _ in 0..5 {
        vm.step().unwrap();
    }
    assert_eq!(vm.registers.ac, 0x80);
    assert_eq!(vm.registers.x, 0x80);
    vm.step().unwrap();
    assert_eq!(vm.registers.x, 0x81);
    vm.step().unwrap();
    vm.step().unwrap();
    vm.step().unwrap();
    assert_eq!(vm.registers.y, 0x80);
    vm.step().unwrap();
    assert_eq!(vm.registers.x, 0);
    assert!(vm.get_status(Status::Zero));
}

#[test]
fn rol_ror_rotate_through_carry() {
    let mut vm = VirtualMachine::new();
    // SEC; ROL A; LSR A; ROR A
    vm.set_program(0x0000, "382A4A6A").unwrap();
    vm.registers.ac = 0x80;
    vm.step().unwrap();
    vm.step().unwrap();
    assert_eq!(vm.registers.ac, 0x01);
    assert!(vm.get_status(Status::Carry));
    vm.step().unwrap();
    assert_eq!(vm.registers.ac, 0x00);
    assert!(vm.get_status(Status::Carry));
    vm.step().unwrap();
    assert_eq!(vm.registers.ac, 0x80);
    assert!(!vm.get_status(Status::Carry));
}

#[test]
fn inc_dec_memory() {
    let mut vm = VirtualMachine::new();
    // INC $30; INC $30; DEC $31
    vm.set_program(0x0000, "E630E630C631").unwrap();
    for _ in 0..3 {
        vm.step().unwrap();
    }
    assert_eq!(vm.get_heap(0x30), 2);
    assert_eq!(vm.get_heap(0x31), 0xFF);
    assert!(vm.get_status(Status::Negative));
}

#[test]
fn bit_copies_high_bits() {
    let mut vm = VirtualMachine::new();
    // BIT $40
    vm.set_program(0x0000, "2440").unwrap();
    vm.set_heap(0x40, 0xC0);
    vm.registers.ac = 0x01;
    vm.step().unwrap();
    assert!(vm.get_status(Status::Zero));
    assert!(vm.get_status(Status::Negative));
    assert!(vm.get_status(Status::Overflow));
}

#[test]
fn flag_instructions() {
    let mut vm = VirtualMachine::new();
    // SEC; SED; SEI; CLC; CLD
    vm.set_program(0x0000, "38F87818D8").unwrap();
    for _ in 0..3 {
        vm.step().unwrap();
    }
    assert_eq!(vm.registers.sr, 0x0D);
    vm.step().unwrap();
    vm.step().unwrap();
    assert_eq!(vm.registers.sr, 0x04);
}

#[test]
fn illegal_opcode_aborts_step() {
    let mut vm = VirtualMachine::new();
    vm.set_program(0x0000, "03").unwrap();
    let r = vm.step();
    match r {
        Err(StepError::Decode(e)) => {
            assert_eq!(e.opcode, 0x03);
            assert_eq!(e.a, 0);
            assert_eq!(e.b, 0);
            assert_eq!(e.cc, 3);
        }
        _ => panic!("expected a decode failure"),
    }
    assert_eq!(vm.registers.pc, 0);
    assert_eq!(vm.cycles, 0);
}

#[test]
fn out_of_bounds_fails_under_strict_policy() {
    let mut vm = VirtualMachine::new();
    vm.bounds_policy = BoundsPolicy::Fail;
    // STA $FF00: outside the heap region.
    vm.set_program(0x0000, "8D00FF").unwrap();
    vm.registers.ac = 9;
    assert_eq!(vm.step(), Err(StepError::OutOfBounds(0xFF00)));
    assert!(!vm.flatmap.contains(&9));

    let mut lenient = VirtualMachine::new();
    lenient.set_program(0x0000, "8D00FF").unwrap();
    assert_eq!(lenient.step(), Ok(1));
    assert_eq!(lenient.fault, Some(0xFF00));
}
