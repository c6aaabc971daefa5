use vstd::prelude::*;

use crate::mode::Mode;

verus! {

/// Size of the flat memory, in bytes.
pub const MEMORY_SIZE: usize = 0x10000;

/// First physical address of the heap region; virtual address 0 maps here.
pub const HEAP_BASE: usize = 0x0200;

/// Last physical address of the heap region.
pub const HEAP_END: usize = 0xFFFF;

/// Lowest physical address of the stack region.
pub const STACK_BOTTOM: usize = 0x0100;

/// Highest physical address of the stack region; the first push lands here.
pub const STACK_TOP: usize = 0x01FF;

/// The register file.
#[derive(Clone, Copy, Debug, PartialEq, Eq, Structural)]
pub struct Registers {
    /// Program counter, a virtual heap address.
    pub pc: u16,
    /// Accumulator.
    pub ac: u8,
    /// Index register X.
    pub x: u8,
    /// Index register Y.
    pub y: u8,
    /// Number of occupied stack slots.
    pub sp: u8,
    /// Status flags.
    pub sr: u8,
}

/// The bits of the status register.
#[derive(Clone, Copy, Debug, PartialEq, Eq, Structural)]
pub enum Status {
    Carry,
    Zero,
    Interrupt,
    Decimal,
    Break,
    Unused,
    Overflow,
    Negative,
}

/// The mask of a status flag within the status register.
pub open spec fn flag_mask(s: Status) -> u8 {
    match s {
        Status::Carry => 0x01,
        Status::Zero => 0x02,
        Status::Interrupt => 0x04,
        Status::Decimal => 0x08,
        Status::Break => 0x10,
        Status::Unused => 0x20,
        Status::Overflow => 0x40,
        Status::Negative => 0x80,
    }
}

/// The mask of a status flag within the status register.
pub fn status_mask(s: Status) -> (r: u8)
    ensures
        r == flag_mask(s),
{
    match s {
        Status::Carry => 0x01,
        Status::Zero => 0x02,
        Status::Interrupt => 0x04,
        Status::Decimal => 0x08,
        Status::Break => 0x10,
        Status::Unused => 0x20,
        Status::Overflow => 0x40,
        Status::Negative => 0x80,
    }
}

/// What an access outside the heap region does.
#[derive(Clone, Copy, Debug, PartialEq, Eq, Structural)]
pub enum BoundsPolicy {
    /// The access is dropped (a read gives 0), it is recorded, and the step
    /// that made it fails.
    Fail,
    /// The access is dropped (a read gives 0) and recorded; the step goes on.
    Ignore,
}

/// The whole machine: memory, registers, decode scratch state and counters.
pub struct VirtualMachine {
    /// The flat memory, indexed by physical address.
    pub flatmap: Vec<u8>,
    /// First and last physical address of the heap region.
    pub heap_bounds: (usize, usize),
    /// Lowest and highest physical address of the stack region.
    pub stack_bounds: (usize, usize),
    pub registers: Registers,
    /// The opcode fetched by the step in progress.
    pub active_byte: u8,
    /// The addressing mode of `active_byte`.
    pub addr_mode: Mode,
    /// The operand address last resolved.
    pub mode_addr: u16,
    /// Completed steps.
    pub cycles: u64,
    pub bounds_policy: BoundsPolicy,
    /// The first virtual address accessed outside the heap region in the
    /// step in progress, if any.
    pub fault: Option<u16>,
}

/// The mathematical view of a [`VirtualMachine`].
pub struct MachineView {
    pub mem: Seq<u8>,
    pub heap_bounds: (usize, usize),
    pub stack_bounds: (usize, usize),
    pub registers: Registers,
    pub active_byte: u8,
    pub addr_mode: Mode,
    pub mode_addr: u16,
    pub cycles: u64,
    pub bounds_policy: BoundsPolicy,
    pub fault: Option<u16>,
}

impl View for VirtualMachine {
    type V = MachineView;

    open spec fn view(&self) -> MachineView {
        MachineView {
            mem: self.flatmap@,
            heap_bounds: self.heap_bounds,
            stack_bounds: self.stack_bounds,
            registers: self.registers,
            active_byte: self.active_byte,
            addr_mode: self.addr_mode,
            mode_addr: self.mode_addr,
            cycles: self.cycles,
            bounds_policy: self.bounds_policy,
            fault: self.fault,
        }
    }
}

impl MachineView {
    /// Memory spans the whole address space and both regions lie inside it;
    /// the stack region holds at least 256 slots.
    pub open spec fn wf(self) -> bool {
        &&& self.mem.len() == MEMORY_SIZE
        &&& self.heap_bounds.0 <= self.heap_bounds.1 < MEMORY_SIZE
        &&& self.stack_bounds.0 + 255 <= self.stack_bounds.1 < MEMORY_SIZE
    }

    /// Whether a status flag is set.
    pub open spec fn flag(self, s: Status) -> bool {
        self.registers.sr & flag_mask(s) != 0
    }

    /// The view with other registers.
    pub open spec fn with_regs(self, r: Registers) -> MachineView {
        MachineView { registers: r, ..self }
    }

    /// The view with another program counter.
    pub open spec fn with_pc(self, pc: u16) -> MachineView {
        self.with_regs(Registers { pc, ..self.registers })
    }

    /// Physical index of a virtual heap address.
    pub open spec fn phys(self, v: u16) -> int {
        v + self.heap_bounds.0
    }

    /// Whether a virtual address lies in the heap region.
    pub open spec fn in_heap(self, v: u16) -> bool {
        self.phys(v) <= self.heap_bounds.1
    }

    /// The byte at a virtual address; 0 outside the heap region.
    pub open spec fn read(self, v: u16) -> u8 {
        if self.in_heap(v) {
            self.mem[self.phys(v)]
        } else {
            0
        }
    }

    /// Records an access to `v` when it lies outside the heap region and no
    /// earlier one was recorded.
    pub open spec fn note(self, v: u16) -> MachineView {
        if self.in_heap(v) || self.fault is Some {
            self
        } else {
            MachineView { fault: Some(v), ..self }
        }
    }

    /// Stores a byte at a virtual address; outside the heap region memory is
    /// untouched and the access is recorded.
    pub open spec fn write(self, v: u16, b: u8) -> MachineView {
        if self.in_heap(v) {
            MachineView { mem: self.mem.update(self.phys(v), b), ..self }
        } else {
            self.note(v)
        }
    }
}

impl VirtualMachine {
    /// A machine with zeroed memory and registers, the heap at
    /// `HEAP_BASE..=HEAP_END` and the stack at `STACK_BOTTOM..=STACK_TOP`.
    pub fn new() -> (vm: VirtualMachine)
        ensures
            vm@.wf(),
            vm@.mem == Seq::new(MEMORY_SIZE as nat, |i: int| 0u8),
            vm@.heap_bounds == (HEAP_BASE, HEAP_END),
            vm@.stack_bounds == (STACK_BOTTOM, STACK_TOP),
            vm@.registers == (Registers { pc: 0, ac: 0, x: 0, y: 0, sp: 0, sr: 0 }),
            vm@.cycles == 0,
            vm@.bounds_policy == BoundsPolicy::Ignore,
            vm@.fault is None,
    {
        let flatmap: Vec<u8> = vec![0u8; MEMORY_SIZE];
        let vm = VirtualMachine {
            flatmap,
            heap_bounds: (HEAP_BASE, HEAP_END),
            stack_bounds: (STACK_BOTTOM, STACK_TOP),
            registers: Registers { pc: 0, ac: 0, x: 0, y: 0, sp: 0, sr: 0 },
            active_byte: 0,
            addr_mode: Mode::Implied,
            mode_addr: 0,
            cycles: 0,
            bounds_policy: BoundsPolicy::Ignore,
            fault: None,
        };
        assert(vm@.mem =~= Seq::new(MEMORY_SIZE as nat, |i: int| 0u8));
        vm
    }

    /// A zeroed machine with the given heap and stack regions (first and last
    /// physical address of each); `None` unless both lie in memory and the
    /// stack region holds at least 256 slots.
    pub fn with_bounds(heap_bounds: (usize, usize), stack_bounds: (usize, usize)) -> (r: Option<VirtualMachine>)
        ensures
            r is Some <==> (heap_bounds.0 <= heap_bounds.1 < MEMORY_SIZE && stack_bounds.0 + 255
                <= stack_bounds.1 < MEMORY_SIZE),
            r is Some ==> {
                let vm = r->0@;
                &&& vm.wf()
                &&& vm.heap_bounds == heap_bounds
                &&& vm.stack_bounds == stack_bounds
                &&& vm.mem == Seq::new(MEMORY_SIZE as nat, |i: int| 0u8)
                &&& vm.registers == (Registers { pc: 0, ac: 0, x: 0, y: 0, sp: 0, sr: 0 })
                &&& vm.cycles == 0
                &&& vm.fault is None
            },
    {
        if heap_bounds.0 <= heap_bounds.1 && heap_bounds.1 < MEMORY_SIZE && stack_bounds.0 <= stack_bounds.1
            && stack_bounds.1 - stack_bounds.0 >= 255 && stack_bounds.1 < MEMORY_SIZE {
            let mut vm = VirtualMachine::new();
            vm.heap_bounds = heap_bounds;
            vm.stack_bounds = stack_bounds;
            Some(vm)
        } else {
            None
        }
    }

    /// Whether the machine satisfies the invariant that every operation
    /// requires.
    pub fn is_well_formed(&self) -> (r: bool)
        ensures
            r == self@.wf(),
    {
        self.flatmap.len() == MEMORY_SIZE && self.heap_bounds.0 <= self.heap_bounds.1 && self.heap_bounds.1
            < MEMORY_SIZE && self.stack_bounds.0 <= self.stack_bounds.1 && self.stack_bounds.1 - self.stack_bounds.0
            >= 255 && self.stack_bounds.1 < MEMORY_SIZE
    }

    /// Whether a status flag is set.
    pub fn get_status(&self, s: Status) -> (r: bool)
        ensures
            r == self@.flag(s),
    {
        self.registers.sr & status_mask(s) != 0
    }

    /// Sets or clears a status flag, leaving the others.
    pub fn set_status(&mut self, s: Status, on: bool)
        ensures
            final(self)@ == old(self)@.with_regs(
                Registers { sr: set_bit(old(self)@.registers.sr, flag_mask(s), on), ..old(self)@.registers },
            ),
    {
        self.registers.sr = set_flag_bit(self.registers.sr, status_mask(s), on);
    }
}

/// `sr` with the bits of `mask` set or cleared.
pub open spec fn set_bit(sr: u8, mask: u8, on: bool) -> u8 {
    if on {
        sr | mask
    } else {
        sr & !mask
    }
}

pub fn set_flag_bit(sr: u8, mask: u8, on: bool) -> (r: u8)
    ensures
        r == set_bit(sr, mask, on),
{
    if on {
        sr | mask
    } else {
        sr & !mask
    }
}

} // verus!
