use vstd::prelude::*;

use crate::machine::{MachineView, VirtualMachine};

verus! {

/// Byte access to the heap region through virtual addresses, which are
/// translated by the heap base before indexing memory.
pub trait HeapInterface: View<V = MachineView> {
    /// The byte at a virtual address; an access outside the heap region reads
    /// 0 and is recorded.
    fn get_heap(&mut self, virt_addr: u16) -> (r: u8)
        requires
            old(self)@.wf(),
        ensures
            r == old(self)@.read(virt_addr),
            final(self)@ == old(self)@.note(virt_addr),
            final(self)@.wf(),
    ;

    /// Stores a byte at a virtual address; an access outside the heap region
    /// is dropped and recorded.
    fn set_heap(&mut self, virt_addr: u16, byte: u8)
        requires
            old(self)@.wf(),
        ensures
            final(self)@ == old(self)@.write(virt_addr, byte),
            final(self)@.wf(),
    ;

    /// The byte at the program counter.
    fn get_pc_byte(&mut self) -> (r: u8)
        requires
            old(self)@.wf(),
        ensures
            r == old(self)@.read(old(self)@.registers.pc),
            final(self)@ == old(self)@.note(old(self)@.registers.pc),
            final(self)@.wf(),
    ;

    /// Advances the program counter by one (wrapping) and returns the byte there.
    fn inc_pc_and_get_byte(&mut self) -> (r: u8)
        requires
            old(self)@.wf(),
        ensures
            ({
                let s = old(self)@.with_pc(old(self)@.registers.pc.wrapping_add(1));
                r == s.read(s.registers.pc) && final(self)@ == s.note(s.registers.pc)
            }),
            final(self)@.wf(),
    ;

    /// Advances the program counter by one (wrapping) and returns it.
    fn inc_pc_and_get_addr(&mut self) -> (r: u16)
        ensures
            r == old(self)@.registers.pc.wrapping_add(1),
            final(self)@ == old(self)@.with_pc(r),
    ;

    /// The page of the program counter, its high byte.
    fn get_page_offset(&self) -> (r: u8)
        ensures
            r == self@.registers.pc / 256,
    ;

    /// Moves the program counter to another page, keeping its low byte.
    fn set_page_offset(&mut self, virt_addr: u8)
        ensures
            final(self)@ == old(self)@.with_pc(
                (virt_addr * 256 + old(self)@.registers.pc % 256) as u16,
            ),
    ;

    /// Whether a physical address lies in the heap region.
    fn bounds_check(&self, virt_addr: usize) -> (r: bool)
        ensures
            r == (self@.heap_bounds.0 <= virt_addr <= self@.heap_bounds.1),
    ;
}

impl HeapInterface for VirtualMachine {
    fn get_heap(&mut self, virt_addr: u16) -> (r: u8) {
        let addr = virt_addr as usize + self.heap_bounds.0;
        if addr <= self.heap_bounds.1 {
            self.flatmap[addr]
        } else {
            if self.fault.is_none() {
                self.fault = Some(virt_addr);
            }
            0
        }
    }

    fn set_heap(&mut self, virt_addr: u16, byte: u8) {
        let addr = virt_addr as usize + self.heap_bounds.0;
        if addr <= self.heap_bounds.1 {
            self.flatmap.set(addr, byte);
        } else if self.fault.is_none() {
            self.fault = Some(virt_addr);
        }
    }

    fn get_pc_byte(&mut self) -> (r: u8) {
        let pc = self.registers.pc;
        self.get_heap(pc)
    }

    fn inc_pc_and_get_byte(&mut self) -> (r: u8) {
        self.registers.pc = self.registers.pc.wrapping_add(1);
        let pc = self.registers.pc;
        self.get_heap(pc)
    }

    fn inc_pc_and_get_addr(&mut self) -> (r: u16) {
        self.registers.pc = self.registers.pc.wrapping_add(1);
        self.registers.pc
    }

    fn get_page_offset(&self) -> (r: u8) {
        (self.registers.pc / 256) as u8
    }

    fn set_page_offset(&mut self, virt_addr: u8) {
        self.registers.pc = (virt_addr as u16) * 256 + self.registers.pc % 256;
    }

    fn bounds_check(&self, virt_addr: usize) -> (r: bool) {
        self.heap_bounds.0 <= virt_addr && virt_addr <= self.heap_bounds.1
    }
}

/// Management of space in the heap region, for machines that hand it out.
pub trait HeapController {
    /// Reserves space in the heap region.
    fn allocate(&mut self);

    /// Returns reserved space to the heap region.
    fn deallocate(&mut self);
}

} // verus!
