use vstd::prelude::*;

use crate::control::InstructionController;
use crate::heap::HeapInterface;
use crate::machine::{set_flag_bit, status_mask, Registers, Status, VirtualMachine};
use crate::mode::Mode;
use crate::ops::{
    add_with_carry, compare, logic, nz, offset16, op_of, reg_value, shift, with_reg, LogicOp, Op, Reg,
    ShiftOp, IRQ_VECTOR,
};
use crate::stack::StackInterface;

verus! {

/// The operation an opcode selects (see [`op_of`]).
pub fn decode_op(op: u8) -> (r: Op)
    ensures
        r == op_of(op),
{
    let a: u8 = op / 32;
    let b: u8 = (op / 4) % 8;
    let cc: u8 = op % 4;
    match op {
        0x00 => Op::Brk,
        0x40 => Op::Rti,
        0x60 => Op::Rts,
        0x08 => Op::Php,
        0x28 => Op::Plp,
        0x48 => Op::Pha,
        0x68 => Op::Pla,
        0x88 => Op::DecReg(Reg::Y),
        0xA8 => Op::Transfer(Reg::A, Reg::Y),
        0xC8 => Op::IncReg(Reg::Y),
        0xE8 => Op::IncReg(Reg::X),
        0x18 => Op::SetFlag(Status::Carry, false),
        0x38 => Op::SetFlag(Status::Carry, true),
        0x58 => Op::SetFlag(Status::Interrupt, false),
        0x78 => Op::SetFlag(Status::Interrupt, true),
        0x98 => Op::Transfer(Reg::Y, Reg::A),
        0xB8 => Op::SetFlag(Status::Overflow, false),
        0xD8 => Op::SetFlag(Status::Decimal, false),
        0xF8 => Op::SetFlag(Status::Decimal, true),
        0x8A => Op::Transfer(Reg::X, Reg::A),
        0x9A => Op::Txs,
        0xAA => Op::Transfer(Reg::A, Reg::X),
        0xBA => Op::Tsx,
        0xCA => Op::DecReg(Reg::X),
        0xEA | 0x02 => Op::Nop,
        _ => {
            if cc == 1 {
                match a {
                    0 => Op::Logic(LogicOp::Or),
                    1 => Op::Logic(LogicOp::And),
                    2 => Op::Logic(LogicOp::Xor),
                    3 => Op::Adc,
                    4 => Op::Store(Reg::A),
                    5 => Op::Load(Reg::A),
                    6 => Op::Compare(Reg::A),
                    _ => Op::Sbc,
                }
            } else if cc == 2 {
                match a {
                    0 => Op::Shift(ShiftOp::Asl),
                    1 => Op::Shift(ShiftOp::Rol),
                    2 => Op::Shift(ShiftOp::Lsr),
                    3 => Op::Shift(ShiftOp::Ror),
                    4 => Op::Store(Reg::X),
                    5 => Op::Load(Reg::X),
                    6 => Op::DecMem,
                    _ => Op::IncMem,
                }
            } else if cc == 0 {
                if b == 4 {
                    match a {
                        0 => Op::Branch(Status::Negative, false),
                        1 => Op::Branch(Status::Negative, true),
                        2 => Op::Branch(Status::Overflow, false),
                        3 => Op::Branch(Status::Overflow, true),
                        4 => Op::Branch(Status::Carry, false),
                        5 => Op::Branch(Status::Carry, true),
                        6 => Op::Branch(Status::Zero, false),
                        _ => Op::Branch(Status::Zero, true),
                    }
                } else {
                    match a {
                        1 => if b == 0 { Op::Jsr } else { Op::Bit },
                        2 | 3 => Op::Jmp,
                        4 => Op::Store(Reg::Y),
                        5 => Op::Load(Reg::Y),
                        6 => Op::Compare(Reg::Y),
                        7 => Op::Compare(Reg::X),
                        _ => Op::Nop,
                    }
                }
            } else {
                Op::Nop
            }
        },
    }
}

fn nz_flags(sr: u8, v: u8) -> (r: u8)
    ensures
        r == nz(sr, v),
{
    (sr & 0x7D) | (if v == 0 { 0x02u8 } else { 0x00u8 }) | (v & 0x80)
}

fn logic_byte(k: LogicOp, x: u8, y: u8) -> (r: u8)
    ensures
        r == logic(k, x, y),
{
    match k {
        LogicOp::Or => x | y,
        LogicOp::And => x & y,
        LogicOp::Xor => x ^ y,
    }
}

fn add_with_carry_regs(r: Registers, m: u8) -> (out: Registers)
    ensures
        out == add_with_carry(r, m),
{
    let c: u16 = if r.sr & 0x01 != 0 { 1 } else { 0 };
    let sum: u16 = r.ac as u16 + m as u16 + c;
    let v: u8 = (sum % 256) as u8;
    let ov = (r.ac ^ v) & (m ^ v) & 0x80 != 0;
    let sr = set_flag_bit(set_flag_bit(nz_flags(r.sr, v), 0x01, sum > 255), 0x40, ov);
    Registers { ac: v, sr, ..r }
}

fn compare_flags(sr: u8, rv: u8, m: u8) -> (r: u8)
    ensures
        r == compare(sr, rv, m),
{
    set_flag_bit(nz_flags(sr, rv.wrapping_sub(m)), 0x01, rv >= m)
}

fn shift_byte(k: ShiftOp, v: u8, c: bool) -> (r: (u8, bool))
    ensures
        r == shift(k, v, c),
{
    let ci: u16 = if c { 1 } else { 0 };
    let w = v as u16;
    match k {
        ShiftOp::Asl => (((w * 2) % 256) as u8, v >= 128),
        ShiftOp::Rol => (((w * 2 + ci) % 256) as u8, v >= 128),
        ShiftOp::Lsr => (v / 2, v % 2 == 1),
        ShiftOp::Ror => ((w / 2 + ci * 128) as u8, v % 2 == 1),
    }
}

fn get_reg(r: &Registers, which: Reg) -> (v: u8)
    ensures
        v == reg_value(*r, which),
{
    match which {
        Reg::A => r.ac,
        Reg::X => r.x,
        Reg::Y => r.y,
    }
}

fn put_reg(r: &mut Registers, which: Reg, v: u8)
    ensures
        *final(r) == with_reg(*old(r), which, v),
{
    match which {
        Reg::A => r.ac = v,
        Reg::X => r.x = v,
        Reg::Y => r.y = v,
    }
}

fn sign_extend(off: u16) -> (r: u16)
    ensures
        r == offset16(off),
{
    let o = off % 256;
    if o >= 128 { o + 0xFF00 } else { o }
}

impl VirtualMachine {
    fn rmw_target_exec(&mut self) -> (r: Option<u16>)
        requires
            old(self)@.wf(),
        ensures
            (final(self)@, r) == old(self)@.rmw_target(),
            final(self)@.wf(),
    {
        if matches!(self.addr_mode, Mode::Accumulator) {
            None
        } else {
            Some(self.fetch_addr())
        }
    }

    fn read_target(&mut self, g: Option<u16>) -> (r: u8)
        requires
            old(self)@.wf(),
        ensures
            r == old(self)@.target_value(g),
            final(self)@ == old(self)@.note_target(g),
            final(self)@.wf(),
    {
        match g {
            None => self.registers.ac,
            Some(a) => self.get_heap(a),
        }
    }

    fn write_target(&mut self, g: Option<u16>, v: u8)
        requires
            old(self)@.wf(),
        ensures
            final(self)@ == old(self)@.store_target(g, v),
            final(self)@.wf(),
    {
        match g {
            None => self.registers.ac = v,
            Some(a) => self.set_heap(a, v),
        }
    }

    /// Operations that read an operand byte into a register or the flags.
    fn exec_alu(&mut self, op: Op)
        requires
            old(self)@.wf(),
        ensures
            final(self)@ == old(self)@.alu_effect(op),
            final(self)@.wf(),
    {
        match op {
            Op::Logic(k) => {
                let m = self.fetch_byte();
                let v = logic_byte(k, self.registers.ac, m);
                self.registers.ac = v;
                self.registers.sr = nz_flags(self.registers.sr, v);
            },
            Op::Adc => {
                let m = self.fetch_byte();
                self.registers = add_with_carry_regs(self.registers, m);
            },
            Op::Sbc => {
                let m = self.fetch_byte();
                self.registers = add_with_carry_regs(self.registers, 255 - m);
            },
            Op::Load(g) => {
                let m = self.fetch_byte();
                put_reg(&mut self.registers, g, m);
                self.registers.sr = nz_flags(self.registers.sr, m);
            },
            Op::Compare(g) => {
                let m = self.fetch_byte();
                let rv = get_reg(&self.registers, g);
                self.registers.sr = compare_flags(self.registers.sr, rv, m);
            },
            Op::Bit => {
                let m = self.fetch_byte();
                let sr1 = set_flag_bit(self.registers.sr, 0x02, self.registers.ac & m == 0);
                let sr2 = set_flag_bit(sr1, 0x80, m & 0x80 != 0);
                self.registers.sr = set_flag_bit(sr2, 0x40, m & 0x40 != 0);
            },
            _ => {},
        }
    }

    /// Stores of a register.
    fn exec_store(&mut self, op: Op)
        requires
            old(self)@.wf(),
        ensures
            final(self)@ == old(self)@.store_effect(op),
            final(self)@.wf(),
    {
        match op {
            Op::Store(g) => {
                let a = self.fetch_addr();
                let v = get_reg(&self.registers, g);
                self.set_heap(a, v);
            },
            _ => {},
        }
    }

    /// Read-modify-write operations on the accumulator or memory.
    fn exec_rmw(&mut self, op: Op)
        requires
            old(self)@.wf(),
        ensures
            final(self)@ == old(self)@.rmw_effect(op),
            final(self)@.wf(),
    {
        match op {
            Op::Shift(k) => {
                let g = self.rmw_target_exec();
                let old_v = self.read_target(g);
                let (v, c) = shift_byte(k, old_v, self.registers.sr & 0x01 != 0);
                self.write_target(g, v);
                self.registers.sr = set_flag_bit(nz_flags(self.registers.sr, v), 0x01, c);
            },
            Op::IncMem | Op::DecMem => {
                let g = self.rmw_target_exec();
                let old_v = self.read_target(g);
                let v = if matches!(op, Op::IncMem) { old_v.wrapping_add(1) } else { old_v.wrapping_sub(1) };
                self.write_target(g, v);
                self.registers.sr = nz_flags(self.registers.sr, v);
            },
            _ => {},
        }
    }

    /// Operations on registers and flags alone.
    fn exec_reg(&mut self, op: Op)
        requires
            old(self)@.wf(),
        ensures
            final(self)@ == old(self)@.reg_effect(op),
            final(self)@.wf(),
    {
        match op {
            Op::IncReg(g) => {
                let v = get_reg(&self.registers, g).wrapping_add(1);
                put_reg(&mut self.registers, g, v);
                self.registers.sr = nz_flags(self.registers.sr, v);
            },
            Op::DecReg(g) => {
                let v = get_reg(&self.registers, g).wrapping_sub(1);
                put_reg(&mut self.registers, g, v);
                self.registers.sr = nz_flags(self.registers.sr, v);
            },
            Op::Transfer(from, to) => {
                let v = get_reg(&self.registers, from);
                put_reg(&mut self.registers, to, v);
                self.registers.sr = nz_flags(self.registers.sr, v);
            },
            Op::Tsx => {
                self.registers.x = self.registers.sp;
                self.registers.sr = nz_flags(self.registers.sr, self.registers.sp);
            },
            Op::Txs => {
                self.registers.sp = self.registers.x;
            },
            Op::SetFlag(f, on) => {
                self.registers.sr = set_flag_bit(self.registers.sr, status_mask(f), on);
            },
            _ => {},
        }
    }

    /// Conditional branches.
    fn exec_branch(&mut self, op: Op)
        requires
            old(self)@.wf(),
        ensures
            final(self)@ == old(self)@.branch_effect(op),
            final(self)@.wf(),
    {
        match op {
            Op::Branch(f, want) => {
                let off = self.fetch_addr();
                if (self.registers.sr & status_mask(f) != 0) == want {
                    self.registers.pc = self.registers.pc.wrapping_add(sign_extend(off));
                }
            },
            _ => {},
        }
    }

    /// Jumps and subroutine calls.
    fn exec_jump(&mut self, op: Op)
        requires
            old(self)@.wf(),
        ensures
            final(self)@ == old(self)@.jump_effect(op),
            final(self)@.wf(),
    {
        match op {
            Op::Jmp => {
                let indirect = matches!(self.addr_mode, Mode::Indirect);
                let a = self.fetch_addr();
                let target = if indirect {
                    let lo = self.get_heap(a);
                    let hi = self.get_heap(a.wrapping_add(1));
                    hi as u16 * 256 + lo as u16
                } else {
                    a
                };
                self.registers.pc = target.wrapping_sub(1);
            },
            Op::Jsr => {
                let a = self.fetch_addr();
                let ret = self.registers.pc;
                self.push((ret / 256) as u8);
                self.push((ret % 256) as u8);
                self.registers.pc = a.wrapping_sub(1);
            },
            _ => {},
        }
    }

    /// Returns, breaks, pushes and pulls.
    fn exec_stack(&mut self, op: Op)
        requires
            old(self)@.wf(),
        ensures
            final(self)@ == old(self)@.stack_effect(op),
            final(self)@.wf(),
    {
        match op {
            Op::Rts => {
                let lo = self.pop();
                let hi = self.pop();
                self.registers.pc = hi as u16 * 256 + lo as u16;
            },
            Op::Rti => {
                let sr = self.pop();
                let lo = self.pop();
                let hi = self.pop();
                self.registers.sr = sr;
                self.registers.pc = (hi as u16 * 256 + lo as u16).wrapping_sub(1);
            },
            Op::Brk => {
                let ret = self.registers.pc.wrapping_add(2);
                let sr = self.registers.sr;
                let target = self.flatmap[IRQ_VECTOR + 1] as u16 * 256 + self.flatmap[IRQ_VECTOR] as u16;
                self.push((ret / 256) as u8);
                self.push((ret % 256) as u8);
                self.push(sr | 0x30);
                self.registers.sr = sr | 0x04;
                self.registers.pc = target.wrapping_sub(1);
            },
            Op::Php => {
                let sr = self.registers.sr;
                self.push(sr | 0x30);
            },
            Op::Plp => {
                let sr = self.pop();
                self.registers.sr = sr;
            },
            Op::Pha => {
                let ac = self.registers.ac;
                self.push(ac);
            },
            Op::Pla => {
                let v = self.pop();
                self.registers.ac = v;
                self.registers.sr = nz_flags(self.registers.sr, v);
            },
            _ => {},
        }
    }

    /// Performs an operation on a machine whose program counter is on the
    /// opcode and whose mode is classified.
    pub fn execute(&mut self, op: Op)
        requires
            old(self)@.wf(),
        ensures
            final(self)@ == old(self)@.exec_op(op),
            final(self)@.wf(),
    {
        match op {
            Op::Logic(_) | Op::Adc | Op::Sbc | Op::Load(_) | Op::Compare(_) | Op::Bit => self.exec_alu(op),
            Op::Store(_) => self.exec_store(op),
            Op::Shift(_) | Op::IncMem | Op::DecMem => self.exec_rmw(op),
            Op::IncReg(_) | Op::DecReg(_) | Op::Transfer(_, _) | Op::Tsx | Op::Txs | Op::SetFlag(_, _) => self.exec_reg(op),
            Op::Branch(_, _) => self.exec_branch(op),
            Op::Jmp | Op::Jsr => self.exec_jump(op),
            Op::Rts | Op::Rti | Op::Brk | Op::Php | Op::Plp | Op::Pha | Op::Pla => self.exec_stack(op),
            Op::Nop => {},
        }
    }
}

} // verus!
