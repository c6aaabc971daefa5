use vstd::prelude::*;
use vstd::string::StringSliceAdditionalSpecFns;

use crate::machine::{MachineView, VirtualMachine, MEMORY_SIZE};
use crate::ops::IRQ_VECTOR;
use crate::resolve::word;

verus! {

/// Why a program could not be placed in memory.
#[derive(Clone, Copy, Debug, PartialEq, Eq, Structural)]
pub enum LoadError {
    /// The text is not an even number of hexadecimal digits.
    BadHex,
    /// The bytes would run past the end of the heap region.
    DoesNotFit,
}

/// Physical address of the non-maskable-interrupt vector.
pub const NMI_VECTOR: usize = 0xFFFA;

/// Physical address of the reset vector.
pub const RESET_VECTOR: usize = 0xFFFC;

/// The value of a hexadecimal digit, in either case.
pub open spec fn hex_digit(c: u8) -> Option<u8> {
    if 48 <= c <= 57 {
        Some((c - 48) as u8)
    } else if 65 <= c <= 70 {
        Some((c - 55) as u8)
    } else if 97 <= c <= 102 {
        Some((c - 87) as u8)
    } else {
        None
    }
}

/// Whether text is an even number of hexadecimal digits.
pub open spec fn is_hex(t: Seq<u8>) -> bool {
    t.len() % 2 == 0 && forall|i: int| 0 <= i < t.len() ==> (#[trigger] hex_digit(t[i])) is Some
}

/// The bytes that hexadecimal text spells, two digits each, high digit first.
pub open spec fn hex_bytes(t: Seq<u8>) -> Seq<u8> {
    Seq::new(
        t.len() / 2,
        |i: int| (hex_digit(t[2 * i])->0 * 16 + hex_digit(t[2 * i + 1])->0) as u8,
    )
}

fn digit_value(c: u8) -> (r: Option<u8>)
    ensures
        r == hex_digit(c),
{
    if 48 <= c && c <= 57 {
        Some(c - 48)
    } else if 65 <= c && c <= 70 {
        Some(c - 55)
    } else if 97 <= c && c <= 102 {
        Some(c - 87)
    } else {
        None
    }
}

/// Decodes hexadecimal text into bytes; `None` unless it is an even number of
/// hexadecimal digits.
pub fn decode_hex(text: &[u8]) -> (r: Option<Vec<u8>>)
    ensures
        r is Some <==> is_hex(text@),
        r is Some ==> r->0@ == hex_bytes(text@),
{
    if text.len() % 2 != 0 {
        return None;
    }
    let mut out: Vec<u8> = Vec::new();
    let mut i: usize = 0;
    while i < text.len() / 2
        invariant
            text@.len() % 2 == 0,
            i <= text@.len() / 2,
            out@.len() == i,
            forall|j: int| 0 <= j < 2 * i ==> (#[trigger] hex_digit(text@[j])) is Some,
            forall|j: int| 0 <= j < i ==> out@[j] == hex_bytes(text@)[j],
        decreases text@.len() / 2 - i,
    {
        let hi = digit_value(text[2 * i]);
        let lo = digit_value(text[2 * i + 1]);
        match (hi, lo) {
            (Some(h), Some(l)) => {
                out.push(h * 16 + l);
            },
            _ => {
                assert(!is_hex(text@)) by {
                    if hi is None {
                        assert(hex_digit(text@[2 * i as int]) is None);
                    } else {
                        assert(hex_digit(text@[2 * i + 1]) is None);
                    }
                }
                return None;
            },
        }
        i = i + 1;
    }
    assert(out@ =~= hex_bytes(text@));
    Some(out)
}

impl MachineView {
    /// Whether `n` bytes starting at a virtual address fit in the heap region.
    pub open spec fn fits(self, offset: u16, n: nat) -> bool {
        self.phys(offset) + n <= self.heap_bounds.1 + 1
    }

    /// Memory with `bytes` laid out from a virtual address on.
    pub open spec fn placed(self, offset: u16, bytes: Seq<u8>) -> Seq<u8> {
        let start = self.phys(offset);
        Seq::new(
            self.mem.len(),
            |j: int| if start <= j < start + bytes.len() { bytes[j - start] } else { self.mem[j] },
        )
    }
}

impl MachineView {
    /// Memory with the three interrupt vectors stored little-endian at their
    /// fixed physical addresses.
    pub open spec fn with_vectors(self, nmi: u16, reset: u16, irq: u16) -> MachineView {
        MachineView {
            mem: self.mem
                .update(NMI_VECTOR as int, (nmi % 256) as u8)
                .update(NMI_VECTOR + 1, (nmi / 256) as u8)
                .update(RESET_VECTOR as int, (reset % 256) as u8)
                .update(RESET_VECTOR + 1, (reset / 256) as u8)
                .update(IRQ_VECTOR as int, (irq % 256) as u8)
                .update(IRQ_VECTOR + 1, (irq / 256) as u8),
            ..self
        }
    }
}

impl VirtualMachine {
    /// Copies bytes into the heap region from a virtual address on. Fails,
    /// changing nothing, when they would run past the heap's end.
    pub fn insert_bytes(&mut self, offset: u16, bytes: Vec<u8>) -> (r: Result<(), LoadError>)
        requires
            old(self)@.wf(),
        ensures
            final(self)@.wf(),
            r is Ok <==> old(self)@.fits(offset, bytes@.len()),
            r is Ok ==> final(self)@ == (MachineView { mem: old(self)@.placed(offset, bytes@), ..old(self)@ }),
            r is Err ==> r == Err::<(), LoadError>(LoadError::DoesNotFit) && final(self)@ == old(self)@,
    {
        let start = offset as usize + self.heap_bounds.0;
        if start > self.heap_bounds.1 + 1 || bytes.len() > self.heap_bounds.1 + 1 - start {
            return Err(LoadError::DoesNotFit);
        }
        let ghost s0 = self@;
        let mut i: usize = 0;
        while i < bytes.len()
            invariant
                s0.wf(),
                start == s0.phys(offset),
                start + bytes@.len() <= s0.heap_bounds.1 + 1,
                i <= bytes@.len(),
                self@ == (MachineView { mem: self@.mem, ..s0 }),
                self@.mem.len() == s0.mem.len(),
                forall|j: int|
                    0 <= j < s0.mem.len() ==> #[trigger] self@.mem[j] == (if start <= j < start + i {
                        bytes@[j - start]
                    } else {
                        s0.mem[j]
                    }),
            decreases bytes@.len() - i,
        {
            self.flatmap.set(start + i, bytes[i]);
            i = i + 1;
        }
        assert(self@.mem =~= s0.placed(offset, bytes@));
        Ok(())
    }

    /// Decodes hexadecimal program text and copies the bytes into the heap
    /// region from a virtual address on. Fails, changing nothing, on text
    /// that is not hexadecimal or on bytes that do not fit.
    pub fn set_program(&mut self, offset: u16, text: &str) -> (r: Result<(), LoadError>)
        requires
            old(self)@.wf(),
        ensures
            final(self)@.wf(),
            !is_hex(text.spec_bytes()) ==> r == Err::<(), LoadError>(LoadError::BadHex),
            is_hex(text.spec_bytes()) ==> (r is Ok <==> old(self)@.fits(offset, hex_bytes(text.spec_bytes()).len())),
            r is Ok ==> final(self)@ == (MachineView {
                mem: old(self)@.placed(offset, hex_bytes(text.spec_bytes())),
                ..old(self)@
            }),
            r is Err ==> final(self)@ == old(self)@,
    {
        match decode_hex(text.as_bytes()) {
            None => Err(LoadError::BadHex),
            Some(bytes) => self.insert_bytes(offset, bytes),
        }
    }

    /// Stores the three interrupt vectors little-endian at their fixed
    /// physical addresses.
    pub fn set_interrupt_vectors(&mut self, nmi: u16, reset: u16, irq: u16)
        requires
            old(self)@.wf(),
        ensures
            final(self)@.wf(),
            final(self)@ == old(self)@.with_vectors(nmi, reset, irq),
    {
        self.flatmap.set(NMI_VECTOR, (nmi % 256) as u8);
        self.flatmap.set(NMI_VECTOR + 1, (nmi / 256) as u8);
        self.flatmap.set(RESET_VECTOR, (reset % 256) as u8);
        self.flatmap.set(RESET_VECTOR + 1, (reset / 256) as u8);
        self.flatmap.set(IRQ_VECTOR, (irq % 256) as u8);
        self.flatmap.set(IRQ_VECTOR + 1, (irq / 256) as u8);
    }

    /// The little-endian word at physical addresses `at` and `at + 1`.
    pub fn read_vector(&self, at: usize) -> (r: u16)
        requires
            self@.wf(),
            at + 1 < MEMORY_SIZE,
        ensures
            r == self@.vector_at(at as int),
            r == word(self@.mem[at as int], self@.mem[at + 1]),
    {
        self.flatmap[at + 1] as u16 * 256 + self.flatmap[at] as u16
    }
}

} // verus!
