use vstd::prelude::*;

use crate::control::apply_target;
use crate::machine::{MachineView, Registers, Status};
use crate::mode::{field_a, field_b, field_cc, mode_of, DecodeError, Mode};
use crate::ops::{nz, IRQ_VECTOR};
use crate::program::{NMI_VECTOR, RESET_VECTOR};
use crate::resolve::operand_len;

verus! {

/// The classifier is total: every opcode byte gives either a mode or a
/// decode failure that names the byte and its `a`, `b` and `cc` fields, and
/// the `cc = 3` column always fails. Being a spec function of the byte, the
/// outcome is the same on every call.
pub proof fn lemma_classify_total(op: u8)
    ensures
        mode_of(op) is Ok || mode_of(op) == Err::<Mode, DecodeError>(
            DecodeError { opcode: op, a: field_a(op), b: field_b(op), cc: field_cc(op) },
        ),
        field_cc(op) == 3 ==> mode_of(op) is Err,
        field_a(op) < 8 && field_b(op) < 8 && field_cc(op) < 4,
{
}

/// Resolving an operand advances the program counter by exactly the
/// operand length of the mode (0, 1 or 2, wrapping at 16 bits) and changes
/// no other register, whatever the registers hold.
pub proof fn lemma_resolve_advances_pc(s: MachineView)
    requires
        s.wf(),
    ensures
        s.resolve().0.registers == (Registers {
            pc: ((s.registers.pc + operand_len(s.addr_mode)) % 0x10000) as u16,
            ..s.registers
        }),
{
}

/// The apply engine writes `base + X` in the X-indexed modes, `base + Y` in
/// the Y-indexed ones and `base` itself in absolute and zero-page mode, and a
/// store to a memory target changes that one cell and nothing else.
pub proof fn lemma_apply_target_indexing(s: MachineView, base: u16, v: u8)
    requires
        s.wf(),
    ensures
        apply_target(Mode::ZeroPageX, base, s.registers.x, s.registers.y) == Some(
            base.wrapping_add(s.registers.x as u16),
        ),
        apply_target(Mode::ZeroPageY, base, s.registers.x, s.registers.y) == Some(
            base.wrapping_add(s.registers.y as u16),
        ),
        apply_target(Mode::Absolute, base, s.registers.x, s.registers.y) == Some(base),
        apply_target(Mode::ZeroPage, base, s.registers.x, s.registers.y) == Some(base),
        forall|t: u16, j: int|
            0 <= j < s.mem.len() && j != s.phys(t) ==> #[trigger] s.write(t, v).mem[j] == s.mem[j],
        forall|t: u16| s.in_heap(t) ==> #[trigger] s.write(t, v).mem[s.phys(t)] == v,
        forall|t: u16| #[trigger] s.write(t, v).registers == s.registers,
{
}

/// The machine after pushing each byte of `bs` in order.
pub open spec fn push_all(s: MachineView, bs: Seq<u8>) -> MachineView
    decreases bs.len(),
{
    if bs.len() == 0 {
        s
    } else {
        push_all(s, bs.drop_last()).pushed(bs.last())
    }
}

/// The machine after `n` pops, and the bytes popped, first popped first.
pub open spec fn pop_n(s: MachineView, n: nat) -> (MachineView, Seq<u8>)
    decreases n,
{
    if n == 0 {
        (s, Seq::empty())
    } else {
        let (t, out) = pop_n(s.popped(), (n - 1) as nat);
        (t, seq![s.top_byte()] + out)
    }
}

proof fn lemma_push_all(s: MachineView, bs: Seq<u8>)
    requires
        s.wf(),
        s.registers.sp + bs.len() <= 255,
    ensures
        push_all(s, bs).wf(),
        push_all(s, bs).registers == (Registers { sp: (s.registers.sp + bs.len()) as u8, ..s.registers }),
        push_all(s, bs).stack_bounds == s.stack_bounds,
        push_all(s, bs) == (MachineView {
            mem: push_all(s, bs).mem,
            registers: push_all(s, bs).registers,
            ..s
        }),
        forall|i: int|
            0 <= i < bs.len() ==> push_all(s, bs).mem[s.slot((s.registers.sp + i) as u8)] == #[trigger] bs[i],
    decreases bs.len(),
{
    if bs.len() > 0 {
        let init = bs.drop_last();
        lemma_push_all(s, init);
        let t = push_all(s, init);
        assert forall|i: int| 0 <= i < bs.len() implies push_all(s, bs).mem[s.slot(
            (s.registers.sp + i) as u8,
        )] == #[trigger] bs[i] by {
            if i < bs.len() - 1 {
                assert(init[i] == bs[i]);
            }
        }
    }
}

proof fn lemma_pop_n(t: MachineView, n: nat)
    requires
        t.wf(),
        n <= t.registers.sp,
    ensures
        pop_n(t, n).0 == t.with_regs(Registers { sp: (t.registers.sp - n) as u8, ..t.registers }),
        pop_n(t, n).1.len() == n,
        forall|i: int|
            0 <= i < n ==> #[trigger] pop_n(t, n).1[i] == t.mem[t.slot((t.registers.sp - 1 - i) as u8)],
    decreases n,
{
    if n > 0 {
        let u = t.popped();
        lemma_pop_n(u, (n - 1) as nat);
        let out = pop_n(u, (n - 1) as nat).1;
        assert forall|i: int| 0 <= i < n implies #[trigger] pop_n(t, n).1[i] == t.mem[t.slot(
            (t.registers.sp - 1 - i) as u8,
        )] by {
            if i > 0 {
                assert(pop_n(t, n).1[i] == out[i - 1]);
            }
        }
    }
}

/// Pushing bytes and then popping as many returns them in reverse order and
/// brings the stack pointer back to where it was, as long as the pushes do
/// not reach the 255-slot saturation point.
pub proof fn lemma_stack_round_trip(s: MachineView, bs: Seq<u8>)
    requires
        s.wf(),
        s.registers.sp + bs.len() <= 255,
    ensures
        pop_n(push_all(s, bs), bs.len()).1 == bs.reverse(),
        pop_n(push_all(s, bs), bs.len()).0.registers == s.registers,
{
    lemma_push_all(s, bs);
    let t = push_all(s, bs);
    lemma_pop_n(t, bs.len());
    let out = pop_n(t, bs.len()).1;
    assert forall|i: int| 0 <= i < bs.len() implies out[i] == bs.reverse()[i] by {
        let k = bs.len() - 1 - i;
        assert(bs[k] == t.mem[s.slot((s.registers.sp + k) as u8)]);
    }
    assert(out =~= bs.reverse());
}

/// AND with an immediate 0x00 leaves the accumulator zero with Zero set and
/// Negative clear, whatever the accumulator held; AND with an immediate 0xFF
/// on a non-zero accumulator leaves it unchanged with Zero clear.
pub proof fn lemma_and_immediate_flags(s: MachineView)
    requires
        s.wf(),
        s.in_heap(s.registers.pc),
        s.in_heap(s.registers.pc.wrapping_add(1)),
        s.read(s.registers.pc) == 0x29,
        s.read(s.registers.pc.wrapping_add(1)) == 0x00 || (s.read(s.registers.pc.wrapping_add(1)) == 0xFF
            && s.registers.ac != 0),
    ensures
        s.step_result().1 is Ok,
        s.read(s.registers.pc.wrapping_add(1)) == 0x00 ==> {
            &&& s.step_result().0.registers.ac == 0
            &&& s.step_result().0.flag(Status::Zero)
            &&& !s.step_result().0.flag(Status::Negative)
        },
        s.read(s.registers.pc.wrapping_add(1)) == 0xFF ==> {
            &&& s.step_result().0.registers.ac == s.registers.ac
            &&& !s.step_result().0.flag(Status::Zero)
        },
{
    let ac = s.registers.ac;
    let sr = s.registers.sr;
    assert(ac & 0 == 0) by (bit_vector);
    assert(ac & 0xFF == ac) by (bit_vector);
    assert(nz(sr, 0) & 0x02 != 0 && nz(sr, 0) & 0x80 == 0) by (bit_vector);
    assert(ac != 0 ==> nz(sr, ac) & 0x02 == 0) by (bit_vector);
    assert(mode_of(0x29) == Ok::<Mode, DecodeError>(Mode::Immediate));
}

/// Each vector stored by `set_interrupt_vectors` reads back, low byte
/// first, as the 16-bit value that was given.
pub proof fn lemma_vector_round_trip(s: MachineView, nmi: u16, reset: u16, irq: u16)
    requires
        s.wf(),
    ensures
        s.with_vectors(nmi, reset, irq).vector_at(NMI_VECTOR as int) == nmi,
        s.with_vectors(nmi, reset, irq).vector_at(RESET_VECTOR as int) == reset,
        s.with_vectors(nmi, reset, irq).vector_at(IRQ_VECTOR as int) == irq,
{
}

} // verus!
