use vstd::prelude::*;

use crate::machine::{MachineView, Registers, VirtualMachine};

verus! {

impl MachineView {
    /// Physical address of stack slot `i`, counted down from the top.
    pub open spec fn slot(self, i: u8) -> int {
        self.stack_bounds.1 - i
    }

    /// The stack pointer after a pop: one less, but never below zero.
    pub open spec fn sp_after_pop(self) -> u8 {
        if self.registers.sp == 0 { 0 } else { (self.registers.sp - 1) as u8 }
    }

    /// The byte a pop returns: the most recently pushed one.
    pub open spec fn top_byte(self) -> u8 {
        self.mem[self.slot(self.sp_after_pop())]
    }

    /// The machine after pushing `v`: the byte fills the first free slot and
    /// the stack pointer grows by one, saturating at 255.
    pub open spec fn pushed(self, v: u8) -> MachineView {
        let sp = self.registers.sp;
        MachineView {
            mem: self.mem.update(self.slot(sp), v),
            registers: Registers { sp: if sp == 255 { 255 } else { (sp + 1) as u8 }, ..self.registers },
            ..self
        }
    }

    /// The machine after a pop: only the stack pointer changes.
    pub open spec fn popped(self) -> MachineView {
        self.with_regs(Registers { sp: self.sp_after_pop(), ..self.registers })
    }
}

/// The stack engine: a descending stack of bytes in the stack region, with
/// the stack pointer counting the occupied slots.
pub trait StackInterface: View<V = MachineView> {
    /// Removes and returns the most recently pushed byte. On an empty stack
    /// the pointer stays at zero.
    fn pop(&mut self) -> (r: u8)
        requires
            old(self)@.wf(),
        ensures
            r == old(self)@.top_byte(),
            final(self)@ == old(self)@.popped(),
            final(self)@.wf(),
    ;

    /// The byte that a pop would return, without removing it.
    fn peek(&mut self) -> (r: u8)
        requires
            old(self)@.wf(),
        ensures
            r == old(self)@.top_byte(),
            final(self)@ == old(self)@,
    ;

    /// Pushes a byte.
    fn push(&mut self, value: u8)
        requires
            old(self)@.wf(),
        ensures
            final(self)@ == old(self)@.pushed(value),
            final(self)@.wf(),
    ;
}

impl StackInterface for VirtualMachine {
    fn pop(&mut self) -> (r: u8) {
        self.registers.sp = self.registers.sp.saturating_sub(1);
        self.flatmap[self.stack_bounds.1 - self.registers.sp as usize]
    }

    fn peek(&mut self) -> (r: u8) {
        self.flatmap[self.stack_bounds.1 - self.registers.sp.saturating_sub(1) as usize]
    }

    fn push(&mut self, value: u8) {
        let at = self.stack_bounds.1 - self.registers.sp as usize;
        self.flatmap.set(at, value);
        self.registers.sp = self.registers.sp.saturating_add(1);
    }
}

} // verus!
