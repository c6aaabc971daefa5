use vstd::prelude::*;

use crate::heap::HeapInterface;
use crate::machine::{MachineView, Registers, VirtualMachine};
use crate::machine::BoundsPolicy;
use crate::mode::{classify, mode_of, DecodeError, Mode};
use crate::ops::op_of;
use crate::exec::decode_op;

verus! {

/// Where the apply engine reads and writes for an un-indexed base address:
/// `None` for the accumulator, else a virtual address offset by the index
/// register that the mode names.
pub open spec fn apply_target(m: Mode, address: u16, x: u8, y: u8) -> Option<u16> {
    match m {
        Mode::Accumulator => None,
        Mode::ZeroPageX | Mode::AbsoluteX | Mode::IndirectX => Some(address.wrapping_add(x as u16)),
        Mode::ZeroPageY | Mode::AbsoluteY | Mode::IndirectY => Some(address.wrapping_add(y as u16)),
        _ => Some(address),
    }
}

/// Why a step did not complete cleanly.
#[derive(Clone, Copy, Debug, PartialEq, Eq, Structural)]
pub enum StepError {
    /// The opcode has no addressing mode; the step was abandoned before any
    /// effect but the fetch.
    Decode(DecodeError),
    /// Under [`BoundsPolicy::Fail`], the step accessed this virtual address
    /// outside the heap region; the access was dropped.
    OutOfBounds(u16),
}

impl MachineView {
    /// One step: fetch the opcode at the program counter, classify it, run
    /// its operation, advance the program counter by one and count the step.
    /// Out-of-heap accesses are recorded afresh for each step.
    pub open spec fn step_result(self) -> (MachineView, Result<u64, StepError>) {
        let s0 = MachineView { fault: None, ..self };
        let (s1, op) = s0.load(s0.registers.pc);
        let s2 = MachineView { active_byte: op, ..s1 };
        match mode_of(op) {
            Err(e) => (s2, Err(StepError::Decode(e))),
            Ok(m) => {
                let s3 = MachineView { addr_mode: m, ..s2 }.exec_op(op_of(op));
                let s4 = MachineView {
                    cycles: if s3.cycles == u64::MAX { s3.cycles } else { (s3.cycles + 1) as u64 },
                    ..s3.with_pc(s3.registers.pc.wrapping_add(1))
                };
                match (s4.bounds_policy, s4.fault) {
                    (BoundsPolicy::Fail, Some(a)) => (s4, Err(StepError::OutOfBounds(a))),
                    _ => (s4, Ok(s4.cycles)),
                }
            },
        }
    }

    /// The byte at a target: the accumulator, or memory.
    pub open spec fn target_value(self, t: Option<u16>) -> u8 {
        match t {
            None => self.registers.ac,
            Some(a) => self.read(a),
        }
    }

    /// The machine after storing a byte at a target.
    pub open spec fn store_target(self, t: Option<u16>, v: u8) -> MachineView {
        match t {
            None => self.with_regs(Registers { ac: v, ..self.registers }),
            Some(a) => self.write(a, v),
        }
    }
}

impl VirtualMachine {
    /// Reads the byte at a target, transforms it and stores the result back.
    pub(crate) fn modify_target<F: Fn(u8) -> u8>(&mut self, t: Option<u16>, operation: F) -> (r: u8)
        requires
            old(self)@.wf(),
            forall|v: u8| operation.requires((v,)),
        ensures
            operation.ensures((old(self)@.target_value(t),), r),
            final(self)@ == old(self)@.store_target(t, r),
    {
        match t {
            None => {
                let r = operation(self.registers.ac);
                self.registers.ac = r;
                r
            },
            Some(a) => {
                let v = self.get_heap(a);
                let r = operation(v);
                self.set_heap(a, r);
                r
            },
        }
    }
}

/// The decode and address-resolution steps of instruction execution.
pub trait InstructionController: View<V = MachineView> {
    /// Executes one instruction and returns the count of completed steps.
    fn step(&mut self) -> (r: Result<u64, StepError>)
        requires
            old(self)@.wf(),
        ensures
            (final(self)@, r) == old(self)@.step_result(),
            final(self)@.wf(),
    ;

    /// Classifies the fetched opcode and records its mode; a decode failure
    /// leaves the machine unchanged.
    fn set_mode(&mut self) -> (r: Result<Mode, DecodeError>)
        ensures
            r == mode_of(old(self)@.active_byte),
            final(self)@ == (match r {
                Ok(m) => MachineView { addr_mode: m, ..old(self)@ },
                Err(_) => old(self)@,
            }),
    ;

    /// Resolves the operand address under the current mode, consuming the
    /// operand bytes, and records it in `mode_addr`.
    fn fetch_addr(&mut self) -> (r: u16)
        requires
            old(self)@.wf(),
        ensures
            (final(self)@, r) == old(self)@.resolve(),
            final(self)@.wf(),
    ;

    /// Resolves the operand address and reads the byte there.
    fn fetch_byte(&mut self) -> (r: u8)
        requires
            old(self)@.wf(),
        ensures
            (final(self)@, r) == old(self)@.operand(),
            final(self)@.wf(),
    ;

    /// Applies a byte transform at `address` offset by the index register of
    /// the current mode (the accumulator in accumulator mode), stores the
    /// result there and returns it.
    fn apply<F: Fn(u8) -> u8>(&mut self, address: u16, operation: F) -> (r: u8)
        requires
            old(self)@.wf(),
            forall|v: u8| operation.requires((v,)),
        ensures
            ({
                let s = old(self)@;
                let t = apply_target(s.addr_mode, address, s.registers.x, s.registers.y);
                operation.ensures((s.target_value(t),), r) && final(self)@ == s.store_target(t, r)
            }),
    ;
}

impl InstructionController for VirtualMachine {
    fn step(&mut self) -> (r: Result<u64, StepError>) {
        self.fault = None;
        self.active_byte = self.get_pc_byte();
        match self.set_mode() {
            Err(e) => Err(StepError::Decode(e)),
            Ok(_) => {
                let op = decode_op(self.active_byte);
                self.execute(op);
                self.registers.pc = self.registers.pc.wrapping_add(1);
                self.cycles = self.cycles.saturating_add(1);
                match (self.bounds_policy, self.fault) {
                    (BoundsPolicy::Fail, Some(a)) => Err(StepError::OutOfBounds(a)),
                    _ => Ok(self.cycles),
                }
            },
        }
    }

    fn set_mode(&mut self) -> (r: Result<Mode, DecodeError>) {
        let r = classify(self.active_byte);
        if let Ok(m) = r {
            self.addr_mode = m;
        }
        r
    }

    fn fetch_addr(&mut self) -> (r: u16) {
        let x = self.registers.x as u16;
        let y = self.registers.y as u16;
        let addr: u16 = match self.addr_mode {
            Mode::Accumulator | Mode::Implied => 0,
            Mode::Immediate => self.inc_pc_and_get_addr(),
            Mode::ZeroPage | Mode::Relative => self.inc_pc_and_get_byte() as u16,
            Mode::ZeroPageX => self.inc_pc_and_get_byte() as u16 + x,
            Mode::ZeroPageY => self.inc_pc_and_get_byte() as u16 + y,
            Mode::Absolute | Mode::Indirect => {
                let ll = self.inc_pc_and_get_byte() as u16;
                let hh = self.inc_pc_and_get_byte() as u16;
                hh * 256 + ll
            },
            Mode::AbsoluteX => {
                let ll = self.inc_pc_and_get_byte() as u16;
                let hh = self.inc_pc_and_get_byte() as u16;
                (hh * 256 + ll).wrapping_add(x)
            },
            Mode::AbsoluteY => {
                let ll = self.inc_pc_and_get_byte() as u16;
                let hh = self.inc_pc_and_get_byte() as u16;
                (hh * 256 + ll).wrapping_add(y)
            },
            Mode::IndirectX => {
                let p = self.inc_pc_and_get_byte() as u16 + x;
                let lo = self.get_heap(p) as u16;
                let hi = self.get_heap(p + 1) as u16;
                hi * 256 + lo
            },
            Mode::IndirectY => {
                let p = self.inc_pc_and_get_byte() as u16;
                let lo = self.get_heap(p) as u16;
                let hi = self.get_heap(p + 1) as u16;
                (hi * 256 + lo).wrapping_add(y)
            },
        };
        self.mode_addr = addr;
        addr
    }

    fn fetch_byte(&mut self) -> (r: u8) {
        let addr = self.fetch_addr();
        self.get_heap(addr)
    }

    fn apply<F: Fn(u8) -> u8>(&mut self, address: u16, operation: F) -> (r: u8) {
        let t: Option<u16> = match self.addr_mode {
            Mode::Accumulator => None,
            Mode::ZeroPageX | Mode::AbsoluteX | Mode::IndirectX => Some(
                address.wrapping_add(self.registers.x as u16),
            ),
            Mode::ZeroPageY | Mode::AbsoluteY | Mode::IndirectY => Some(
                address.wrapping_add(self.registers.y as u16),
            ),
            _ => Some(address),
        };
        self.modify_target(t, operation)
    }
}

} // verus!
