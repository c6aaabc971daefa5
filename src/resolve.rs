use vstd::prelude::*;

use crate::machine::MachineView;
use crate::mode::Mode;

verus! {

/// The 16-bit value with low byte `lo` and high byte `hi`.
pub open spec fn word(lo: u8, hi: u8) -> u16 {
    (hi * 256 + lo) as u16
}

/// How many operand bytes follow an opcode in each mode.
pub open spec fn operand_len(m: Mode) -> nat {
    match m {
        Mode::Accumulator | Mode::Implied => 0,
        Mode::Absolute | Mode::AbsoluteX | Mode::AbsoluteY | Mode::Indirect => 2,
        _ => 1,
    }
}

impl MachineView {
    /// Advances the program counter by one and reads the byte there.
    pub open spec fn next_byte(self) -> (MachineView, u8) {
        let t = self.with_pc(self.registers.pc.wrapping_add(1));
        (t.note(t.registers.pc), t.read(t.registers.pc))
    }

    /// Reads a byte, recording the access.
    pub open spec fn load(self, v: u16) -> (MachineView, u8) {
        (self.note(v), self.read(v))
    }

    /// Reads the little-endian word at `p` and `p + 1`.
    pub open spec fn load_word(self, p: u16) -> (MachineView, u16) {
        let (t1, lo) = self.load(p);
        let (t2, hi) = t1.load(p.wrapping_add(1));
        (t2, word(lo, hi))
    }

    /// The effective address under the current mode, and the machine after
    /// consuming the operand bytes, before the address is recorded.
    pub open spec fn resolve_raw(self) -> (MachineView, u16) {
        let x = self.registers.x;
        let y = self.registers.y;
        match self.addr_mode {
            Mode::Accumulator | Mode::Implied => (self, 0),
            Mode::Immediate => {
                let pc = self.registers.pc.wrapping_add(1);
                (self.with_pc(pc), pc)
            },
            Mode::ZeroPage | Mode::Relative => {
                let (t, ll) = self.next_byte();
                (t, ll as u16)
            },
            Mode::ZeroPageX => {
                let (t, ll) = self.next_byte();
                (t, (ll + x) as u16)
            },
            Mode::ZeroPageY => {
                let (t, ll) = self.next_byte();
                (t, (ll + y) as u16)
            },
            Mode::Absolute | Mode::Indirect => {
                let (t1, ll) = self.next_byte();
                let (t2, hh) = t1.next_byte();
                (t2, word(ll, hh))
            },
            Mode::AbsoluteX => {
                let (t1, ll) = self.next_byte();
                let (t2, hh) = t1.next_byte();
                (t2, word(ll, hh).wrapping_add(x as u16))
            },
            Mode::AbsoluteY => {
                let (t1, ll) = self.next_byte();
                let (t2, hh) = t1.next_byte();
                (t2, word(ll, hh).wrapping_add(y as u16))
            },
            Mode::IndirectX => {
                let (t1, ll) = self.next_byte();
                let p = (ll + x) as u16;
                let (t2, lo) = t1.load(p);
                let (t3, hi) = t2.load((p + 1) as u16);
                (t3, word(lo, hi))
            },
            Mode::IndirectY => {
                let (t1, ll) = self.next_byte();
                let (t2, lo) = t1.load(ll as u16);
                let (t3, hi) = t2.load((ll + 1) as u16);
                (t3, word(lo, hi).wrapping_add(y as u16))
            },
        }
    }

    /// The effective address under the current mode, and the machine after
    /// consuming the operand bytes with the address recorded in `mode_addr`.
    pub open spec fn resolve(self) -> (MachineView, u16) {
        let (t, a) = self.resolve_raw();
        (MachineView { mode_addr: a, ..t }, a)
    }

    /// The operand byte of the current instruction, and the machine after
    /// reading it.
    pub open spec fn operand(self) -> (MachineView, u8) {
        let (t, a) = self.resolve();
        t.load(a)
    }
}

} // verus!
