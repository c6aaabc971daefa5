use vstd::prelude::*;

use crate::machine::{flag_mask, set_bit, MachineView, Registers, Status};
use crate::mode::Mode;
use crate::resolve::word;

verus! {

/// A register that loads, stores, compares, transfers and counts act on.
#[derive(Clone, Copy, Debug, PartialEq, Eq, Structural)]
pub enum Reg {
    A,
    X,
    Y,
}

/// The bitwise operations of ORA, AND and EOR.
#[derive(Clone, Copy, Debug, PartialEq, Eq, Structural)]
pub enum LogicOp {
    Or,
    And,
    Xor,
}

/// The one-bit shifts and rotations ASL, ROL, LSR and ROR.
#[derive(Clone, Copy, Debug, PartialEq, Eq, Structural)]
pub enum ShiftOp {
    Asl,
    Rol,
    Lsr,
    Ror,
}

/// The operation an opcode selects.
#[derive(Clone, Copy, Debug, PartialEq, Eq, Structural)]
pub enum Op {
    /// ORA, AND, EOR.
    Logic(LogicOp),
    Adc,
    Sbc,
    /// LDA, LDX, LDY.
    Load(Reg),
    /// STA, STX, STY.
    Store(Reg),
    /// CMP, CPX, CPY.
    Compare(Reg),
    /// ASL, ROL, LSR, ROR.
    Shift(ShiftOp),
    IncMem,
    DecMem,
    /// INX, INY.
    IncReg(Reg),
    /// DEX, DEY.
    DecReg(Reg),
    /// TAX, TAY, TXA, TYA: copies the first register into the second.
    Transfer(Reg, Reg),
    Tsx,
    Txs,
    /// BPL, BMI, BVC, BVS, BCC, BCS, BNE, BEQ: taken when the flag is as given.
    Branch(Status, bool),
    /// CLC, SEC, CLI, SEI, CLV, CLD, SED.
    SetFlag(Status, bool),
    Bit,
    Jmp,
    Jsr,
    Rts,
    Rti,
    Brk,
    Php,
    Plp,
    Pha,
    Pla,
    Nop,
}

/// The operation selected by an opcode. Single-byte instructions are matched
/// whole; the rest go by their `cc` column and `a` row; a pattern that names
/// no operation is a no-op.
pub open spec fn op_of(op: u8) -> Op {
    let a = op / 32;
    let b = (op / 4) % 8;
    let cc = op % 4;
    if op == 0x00 { Op::Brk }
    else if op == 0x40 { Op::Rti }
    else if op == 0x60 { Op::Rts }
    else if op == 0x08 { Op::Php }
    else if op == 0x28 { Op::Plp }
    else if op == 0x48 { Op::Pha }
    else if op == 0x68 { Op::Pla }
    else if op == 0x88 { Op::DecReg(Reg::Y) }
    else if op == 0xA8 { Op::Transfer(Reg::A, Reg::Y) }
    else if op == 0xC8 { Op::IncReg(Reg::Y) }
    else if op == 0xE8 { Op::IncReg(Reg::X) }
    else if op == 0x18 { Op::SetFlag(Status::Carry, false) }
    else if op == 0x38 { Op::SetFlag(Status::Carry, true) }
    else if op == 0x58 { Op::SetFlag(Status::Interrupt, false) }
    else if op == 0x78 { Op::SetFlag(Status::Interrupt, true) }
    else if op == 0x98 { Op::Transfer(Reg::Y, Reg::A) }
    else if op == 0xB8 { Op::SetFlag(Status::Overflow, false) }
    else if op == 0xD8 { Op::SetFlag(Status::Decimal, false) }
    else if op == 0xF8 { Op::SetFlag(Status::Decimal, true) }
    else if op == 0x8A { Op::Transfer(Reg::X, Reg::A) }
    else if op == 0x9A { Op::Txs }
    else if op == 0xAA { Op::Transfer(Reg::A, Reg::X) }
    else if op == 0xBA { Op::Tsx }
    else if op == 0xCA { Op::DecReg(Reg::X) }
    else if op == 0xEA { Op::Nop }
    else if op == 0x02 { Op::Nop }
    else if cc == 1 {
        if a == 0 { Op::Logic(LogicOp::Or) }
        else if a == 1 { Op::Logic(LogicOp::And) }
        else if a == 2 { Op::Logic(LogicOp::Xor) }
        else if a == 3 { Op::Adc }
        else if a == 4 { Op::Store(Reg::A) }
        else if a == 5 { Op::Load(Reg::A) }
        else if a == 6 { Op::Compare(Reg::A) }
        else { Op::Sbc }
    } else if cc == 2 {
        if a == 0 { Op::Shift(ShiftOp::Asl) }
        else if a == 1 { Op::Shift(ShiftOp::Rol) }
        else if a == 2 { Op::Shift(ShiftOp::Lsr) }
        else if a == 3 { Op::Shift(ShiftOp::Ror) }
        else if a == 4 { Op::Store(Reg::X) }
        else if a == 5 { Op::Load(Reg::X) }
        else if a == 6 { Op::DecMem }
        else { Op::IncMem }
    } else if cc == 0 {
        if b == 4 {
            if a == 0 { Op::Branch(Status::Negative, false) }
            else if a == 1 { Op::Branch(Status::Negative, true) }
            else if a == 2 { Op::Branch(Status::Overflow, false) }
            else if a == 3 { Op::Branch(Status::Overflow, true) }
            else if a == 4 { Op::Branch(Status::Carry, false) }
            else if a == 5 { Op::Branch(Status::Carry, true) }
            else if a == 6 { Op::Branch(Status::Zero, false) }
            else { Op::Branch(Status::Zero, true) }
        } else {
            if a == 1 { if b == 0 { Op::Jsr } else { Op::Bit } }
            else if a == 2 || a == 3 { Op::Jmp }
            else if a == 4 { Op::Store(Reg::Y) }
            else if a == 5 { Op::Load(Reg::Y) }
            else if a == 6 { Op::Compare(Reg::Y) }
            else if a == 7 { Op::Compare(Reg::X) }
            else { Op::Nop }
        }
    } else {
        Op::Nop
    }
}

/// The value of a register.
pub open spec fn reg_value(r: Registers, which: Reg) -> u8 {
    match which {
        Reg::A => r.ac,
        Reg::X => r.x,
        Reg::Y => r.y,
    }
}

/// The registers with one of them replaced.
pub open spec fn with_reg(r: Registers, which: Reg, v: u8) -> Registers {
    match which {
        Reg::A => Registers { ac: v, ..r },
        Reg::X => Registers { x: v, ..r },
        Reg::Y => Registers { y: v, ..r },
    }
}

/// `sr` with Zero set iff `v` is zero and Negative set iff bit 7 of `v` is.
pub open spec fn nz(sr: u8, v: u8) -> u8 {
    (sr & 0x7D) | (if v == 0 { 0x02u8 } else { 0x00u8 }) | (v & 0x80)
}

/// The result of a bitwise operation.
pub open spec fn logic(k: LogicOp, x: u8, y: u8) -> u8 {
    match k {
        LogicOp::Or => x | y,
        LogicOp::And => x & y,
        LogicOp::Xor => x ^ y,
    }
}

/// Binary addition of `m` and the carry to the accumulator: the sum modulo
/// 256, Carry when it exceeds 255, Overflow when both addends have a sign
/// other than the result's, and Zero and Negative from the result.
pub open spec fn add_with_carry(r: Registers, m: u8) -> Registers {
    let c: int = if r.sr & 0x01 != 0 { 1 } else { 0 };
    let sum: int = r.ac + m + c;
    let v = (sum % 256) as u8;
    let ov = (r.ac ^ v) & (m ^ v) & 0x80 != 0;
    Registers { ac: v, sr: set_bit(set_bit(nz(r.sr, v), 0x01, sum > 255), 0x40, ov), ..r }
}

/// `sr` after comparing register value `rv` with `m`: Carry iff `rv >= m`,
/// Zero and Negative from `rv - m` modulo 256.
pub open spec fn compare(sr: u8, rv: u8, m: u8) -> u8 {
    set_bit(nz(sr, ((rv - m) % 256) as u8), 0x01, rv >= m)
}

/// A shift or rotation of `v` with carry in `c`: the result and carry out.
pub open spec fn shift(k: ShiftOp, v: u8, c: bool) -> (u8, bool) {
    let ci: int = if c { 1 } else { 0 };
    match k {
        ShiftOp::Asl => (((v * 2) % 256) as u8, v >= 128),
        ShiftOp::Rol => (((v * 2 + ci) % 256) as u8, v >= 128),
        ShiftOp::Lsr => ((v / 2) as u8, v % 2 == 1),
        ShiftOp::Ror => ((v / 2 + ci * 128) as u8, v % 2 == 1),
    }
}

/// The 16-bit sign extension of a branch offset.
pub open spec fn offset16(off: u16) -> u16 {
    let o = off % 256;
    if o >= 128 { (o + 0xFF00) as u16 } else { o as u16 }
}

/// Low byte of a word.
pub open spec fn lo_byte(w: u16) -> u8 {
    (w % 256) as u8
}

/// High byte of a word.
pub open spec fn hi_byte(w: u16) -> u8 {
    (w / 256) as u8
}

/// Physical address of the interrupt-request vector.
pub const IRQ_VECTOR: usize = 0xFFFE;

impl MachineView {
    /// The little-endian word at physical addresses `a` and `a + 1`.
    pub open spec fn vector_at(self, a: int) -> u16 {
        word(self.mem[a], self.mem[a + 1])
    }

    /// The read-modify-write target of the current instruction: the
    /// accumulator in accumulator mode, else the resolved address.
    pub open spec fn rmw_target(self) -> (MachineView, Option<u16>) {
        if self.addr_mode == Mode::Accumulator {
            (self, None)
        } else {
            let (t, a) = self.resolve();
            (t, Some(a))
        }
    }

    /// The machine with the given status register.
    pub open spec fn with_sr(self, sr: u8) -> MachineView {
        self.with_regs(Registers { sr, ..self.registers })
    }

    /// The effect of an operation, from the opcode's fetch (program counter
    /// on the opcode, mode classified) up to, not including, the retiring
    /// advance of the program counter.
    pub open spec fn exec_op(self, op: Op) -> MachineView {
        match op {
            Op::Logic(_) | Op::Adc | Op::Sbc | Op::Load(_) | Op::Compare(_) | Op::Bit => self.alu_effect(op),
            Op::Store(_) => self.store_effect(op),
            Op::Shift(_) | Op::IncMem | Op::DecMem => self.rmw_effect(op),
            Op::IncReg(_) | Op::DecReg(_) | Op::Transfer(_, _) | Op::Tsx | Op::Txs | Op::SetFlag(_, _) => self.reg_effect(op),
            Op::Branch(_, _) => self.branch_effect(op),
            Op::Jmp | Op::Jsr => self.jump_effect(op),
            Op::Rts | Op::Rti | Op::Brk | Op::Php | Op::Plp | Op::Pha | Op::Pla => self.stack_effect(op),
            Op::Nop => self,
        }
    }

    /// The effect of operations that read an operand byte into a register or the flags.
    pub open spec fn alu_effect(self, op: Op) -> MachineView {
        match op {
            Op::Logic(k) => {
                let (t, m) = self.operand();
                let v = logic(k, t.registers.ac, m);
                t.with_regs(Registers { ac: v, sr: nz(t.registers.sr, v), ..t.registers })
            },
            Op::Adc => {
                let (t, m) = self.operand();
                t.with_regs(add_with_carry(t.registers, m))
            },
            Op::Sbc => {
                let (t, m) = self.operand();
                t.with_regs(add_with_carry(t.registers, (255 - m) as u8))
            },
            Op::Load(g) => {
                let (t, m) = self.operand();
                t.with_regs(Registers { sr: nz(t.registers.sr, m), ..with_reg(t.registers, g, m) })
            },
            Op::Compare(g) => {
                let (t, m) = self.operand();
                t.with_sr(compare(t.registers.sr, reg_value(t.registers, g), m))
            },
            Op::Bit => {
                let (t, m) = self.operand();
                let sr = t.registers.sr;
                let sr1 = set_bit(sr, 0x02, t.registers.ac & m == 0);
                let sr2 = set_bit(sr1, 0x80, m & 0x80 != 0);
                t.with_sr(set_bit(sr2, 0x40, m & 0x40 != 0))
            },
            _ => self,
        }
    }

    /// The effect of stores of a register.
    pub open spec fn store_effect(self, op: Op) -> MachineView {
        match op {
            Op::Store(g) => {
                let (t, a) = self.resolve();
                t.write(a, reg_value(t.registers, g))
            },
            _ => self,
        }
    }

    /// The effect of read-modify-write operations on the accumulator or memory.
    pub open spec fn rmw_effect(self, op: Op) -> MachineView {
        match op {
            Op::Shift(k) => {
                let (t, g) = self.rmw_target();
                let (v, c) = shift(k, t.target_value(g), t.registers.sr & 0x01 != 0);
                let u = t.note_target(g).store_target(g, v);
                u.with_sr(set_bit(nz(u.registers.sr, v), 0x01, c))
            },
            Op::IncMem | Op::DecMem => {
                let (t, g) = self.rmw_target();
                let old_v = t.target_value(g);
                let v = if op == Op::IncMem { ((old_v + 1) % 256) as u8 } else { ((old_v + 255) % 256) as u8 };
                let u = t.note_target(g).store_target(g, v);
                u.with_sr(nz(u.registers.sr, v))
            },
            _ => self,
        }
    }

    /// The effect of operations on registers and flags alone.
    pub open spec fn reg_effect(self, op: Op) -> MachineView {
        let r = self.registers;
        match op {
            Op::IncReg(g) => {
                let v = ((reg_value(r, g) + 1) % 256) as u8;
                self.with_regs(Registers { sr: nz(r.sr, v), ..with_reg(r, g, v) })
            },
            Op::DecReg(g) => {
                let v = ((reg_value(r, g) + 255) % 256) as u8;
                self.with_regs(Registers { sr: nz(r.sr, v), ..with_reg(r, g, v) })
            },
            Op::Transfer(from, to) => {
                let v = reg_value(r, from);
                self.with_regs(Registers { sr: nz(r.sr, v), ..with_reg(r, to, v) })
            },
            Op::Tsx => self.with_regs(Registers { x: r.sp, sr: nz(r.sr, r.sp), ..r }),
            Op::Txs => self.with_regs(Registers { sp: r.x, ..r }),
            Op::SetFlag(f, on) => self.with_sr(set_bit(r.sr, flag_mask(f), on)),
            _ => self,
        }
    }

    /// The effect of conditional branches.
    pub open spec fn branch_effect(self, op: Op) -> MachineView {
        match op {
            Op::Branch(f, want) => {
                let (t, off) = self.resolve();
                if t.flag(f) == want {
                    t.with_pc(t.registers.pc.wrapping_add(offset16(off)))
                } else {
                    t
                }
            },
            _ => self,
        }
    }

    /// The effect of jumps and subroutine calls.
    pub open spec fn jump_effect(self, op: Op) -> MachineView {
        match op {
            Op::Jmp => {
                let (t, a) = self.resolve();
                let (u, target) = if self.addr_mode == Mode::Indirect { t.load_word(a) } else { (t, a) };
                u.with_pc(target.wrapping_sub(1))
            },
            Op::Jsr => {
                let (t, a) = self.resolve();
                let ret = t.registers.pc;
                t.pushed(hi_byte(ret)).pushed(lo_byte(ret)).with_pc(a.wrapping_sub(1))
            },
            _ => self,
        }
    }

    /// The effect of returns, breaks, pushes and pulls.
    pub open spec fn stack_effect(self, op: Op) -> MachineView {
        let r = self.registers;
        match op {
            Op::Rts => {
                let lo = self.top_byte();
                let s1 = self.popped();
                let hi = s1.top_byte();
                s1.popped().with_pc(word(lo, hi))
            },
            Op::Rti => {
                let sr = self.top_byte();
                let s1 = self.popped();
                let lo = s1.top_byte();
                let s2 = s1.popped();
                let hi = s2.top_byte();
                s2.popped().with_sr(sr).with_pc(word(lo, hi).wrapping_sub(1))
            },
            Op::Brk => {
                let ret = r.pc.wrapping_add(2);
                let s1 = self.pushed(hi_byte(ret)).pushed(lo_byte(ret)).pushed(r.sr | 0x30);
                s1.with_sr(r.sr | 0x04).with_pc(self.vector_at(IRQ_VECTOR as int).wrapping_sub(1))
            },
            Op::Php => self.pushed(r.sr | 0x30),
            Op::Plp => self.popped().with_sr(self.top_byte()),
            Op::Pha => self.pushed(r.ac),
            Op::Pla => {
                let v = self.top_byte();
                let s1 = self.popped();
                s1.with_regs(Registers { ac: v, sr: nz(r.sr, v), ..s1.registers })
            },
            _ => self,
        }
    }

    /// Records the access to a memory target.
    pub open spec fn note_target(self, g: Option<u16>) -> MachineView {
        match g {
            None => self,
            Some(a) => self.note(a),
        }
    }
}

} // verus!
