//! What each instruction does to the machine, and the proof that the
//! microcode does exactly that in the five ticks of the instruction.

use vstd::prelude::*;
use crate::alu::{alu_carry, alu_sum};
use crate::bits::{lemma_low_nibble_is_remainder, low_nibble};
use crate::laws::{lemma_advance_adds, lemma_halted_stays_halted, lemma_low_nibble_twice};
use crate::machine::{lemma_advance_keeps_wf, spec_next_counter, StateView};
use crate::microcode::{
    flag_set, lemma_table_lines, spec_flags, ADD, AI, AO, BI, CE, CF, CO, EO, FI, HALT, HLT, II,
    IO, J, JC, JMP, JZ, LDA, LDI, MI, OI, OUT, RI, RO, STA, SU, SUB, ZF,
};

verus! {

/// The state after the instruction that the program counter points to, as
/// the instruction set defines it.
///
/// Every instruction loads the instruction register from the cell that the
/// program counter points to and counts the program counter on. Then a
/// load copies the cell named by the operand to A; an addition or a
/// subtraction copies that cell to B, puts the adder's result in A and
/// takes the flags from the adder; a store copies A to that cell; a
/// load-immediate puts the operand itself in A; a jump puts the operand in
/// the program counter, a conditional jump only with its flag set; an
/// output copies A to the output register. Every other code does nothing
/// more.
pub open spec fn spec_execute(s: StateView) -> StateView {
    let byte = s.memory[s.counter as int];
    let opcode = byte >> 4;
    let operand = low_nibble(byte);
    let cell = s.memory[operand as int];
    let fetched = StateView {
        instruction: byte,
        counter: spec_next_counter(s.counter),
        address: s.counter,
        ..s
    };
    if opcode == LDA {
        StateView { a: cell, address: operand, ..fetched }
    } else if opcode == ADD {
        StateView {
            a: alu_sum(s.a, cell, false),
            b: cell,
            flags: spec_flags(alu_sum(s.a, cell, false), alu_carry(s.a, cell, false)),
            address: operand,
            ..fetched
        }
    } else if opcode == SUB {
        StateView {
            a: alu_sum(s.a, cell, true),
            b: cell,
            flags: spec_flags(alu_sum(s.a, cell, true), alu_carry(s.a, cell, true)),
            address: operand,
            ..fetched
        }
    } else if opcode == STA {
        StateView { memory: s.memory.update(operand as int, s.a), address: operand, ..fetched }
    } else if opcode == LDI {
        StateView { a: operand, ..fetched }
    } else if opcode == JMP {
        StateView { counter: operand, ..fetched }
    } else if opcode == JC {
        if flag_set(s.flags, CF) {
            StateView { counter: operand, ..fetched }
        } else {
            fetched
        }
    } else if opcode == JZ {
        if flag_set(s.flags, ZF) {
            StateView { counter: operand, ..fetched }
        } else {
            fetched
        }
    } else if opcode == OUT {
        StateView { output: s.a, ..fetched }
    } else {
        fetched
    }
}

/// Whether two states agree on everything but what a tick leaves behind of
/// itself: the bus, the recorded sum and the recorded control word.
pub open spec fn same_registers(x: StateView, y: StateView) -> bool {
    &&& x.a == y.a
    &&& x.b == y.b
    &&& x.output == y.output
    &&& x.instruction == y.instruction
    &&& x.counter == y.counter
    &&& x.address == y.address
    &&& x.flags == y.flags
    &&& x.step == y.step
    &&& x.memory == y.memory
}

/// The two fetch ticks, whatever instruction was executing: afterwards the
/// instruction register holds the cell that the program counter pointed
/// to, the program counter has counted on, from fifteen to zero, and the
/// address register holds the old counter. Nothing else changes.
pub proof fn lemma_fetched(s: StateView)
    requires
        s.wf(),
        s.step == 0,
    ensures
        s.runs_for(2),
        s.advance(2).wf(),
        s.counter == 15 ==> s.advance(2).counter == 0,
        s.counter < 15 ==> s.advance(2).counter == s.counter + 1,
        same_registers(
            s.advance(2),
            StateView {
                instruction: s.memory[s.counter as int],
                counter: spec_next_counter(s.counter),
                address: s.counter,
                step: 2,
                ..s
            },
        ),
{
    lemma_table_lines();
    lemma_low_nibble_is_remainder(s.counter);
    let t = s.tick();
    assert(s.advance(0) == s);
    assert(s.advance(1) == t);
    assert(s.advance(2) == t.tick());
    assert(s.word() == MI | CO);
    assert(t.word() == RO | II | CE);
    assert(!s.halts() && !t.halts());
}

/// What the three ticks after the fetch do for a load, an addition, a
/// subtraction or a store, whose instruction register is loaded.
pub open spec fn spec_memory_steps(t: StateView) -> StateView {
    let operand = low_nibble(t.instruction);
    let cell = t.memory[operand as int];
    let subtract = t.opcode() == SUB;
    if t.opcode() == LDA {
        StateView { a: cell, address: operand, step: 0, ..t }
    } else if t.opcode() == STA {
        StateView { memory: t.memory.update(operand as int, t.a), address: operand, step: 0, ..t }
    } else {
        StateView {
            a: alu_sum(t.a, cell, subtract),
            b: cell,
            flags: spec_flags(alu_sum(t.a, cell, subtract), alu_carry(t.a, cell, subtract)),
            address: operand,
            step: 0,
            ..t
        }
    }
}

/// What the three ticks after the fetch do for every other code but halt.
pub open spec fn spec_register_steps(t: StateView) -> StateView {
    let operand = low_nibble(t.instruction);
    if t.opcode() == LDI {
        StateView { a: operand, step: 0, ..t }
    } else if t.opcode() == OUT {
        StateView { output: t.a, step: 0, ..t }
    } else if t.opcode() == JMP || (t.opcode() == JC && flag_set(t.flags, CF)) || (t.opcode()
        == JZ && flag_set(t.flags, ZF)) {
        StateView { counter: operand, step: 0, ..t }
    } else {
        StateView { step: 0, ..t }
    }
}

/// The three ticks after the fetch of an instruction that reads or writes
/// the cell named by its operand.
pub proof fn lemma_memory_steps(t: StateView)
    requires
        t.wf(),
        t.step == 2,
        t.opcode() == LDA || t.opcode() == ADD || t.opcode() == SUB || t.opcode() == STA,
    ensures
        !t.halts(),
        !t.tick().halts(),
        !t.tick().tick().halts(),
        same_registers(t.tick().tick().tick(), spec_memory_steps(t)),
{
    lemma_table_lines();
    lemma_low_nibble_twice(t.instruction);
    lemma_low_nibble_is_remainder(t.instruction);
    let u = t.tick();
    let v = u.tick();
    assert(t.word() == IO | MI);
    assert(u.address == low_nibble(t.instruction));
    assert(u.instruction == t.instruction && u.step == 3 && u.memory == t.memory);
    assert(u.a == t.a && u.b == t.b && u.flags == t.flags && u.counter == t.counter);
    if t.opcode() == LDA {
        assert(u.word() == RO | AI);
        assert(v.word() == 0);
    } else if t.opcode() == STA {
        assert(u.word() == AO | RI);
        assert(v.word() == 0);
    } else if t.opcode() == ADD {
        assert(u.word() == RO | BI);
        assert(v.word() == EO | AI | FI);
    } else {
        assert(u.word() == RO | BI);
        assert(v.word() == EO | AI | SU | FI);
    }
}

/// The three ticks after the fetch of an instruction that works on the
/// registers alone, or of a code without an instruction.
pub proof fn lemma_register_steps(t: StateView)
    requires
        t.wf(),
        t.step == 2,
        t.opcode() != LDA,
        t.opcode() != ADD,
        t.opcode() != SUB,
        t.opcode() != STA,
        t.opcode() != HALT,
    ensures
        !t.halts(),
        !t.tick().halts(),
        !t.tick().tick().halts(),
        same_registers(t.tick().tick().tick(), spec_register_steps(t)),
{
    lemma_table_lines();
    lemma_low_nibble_twice(t.instruction);
    let u = t.tick();
    let v = u.tick();
    if t.opcode() == LDI {
        assert(t.word() == IO | AI);
    } else if t.opcode() == OUT {
        assert(t.word() == AO | OI);
    } else if t.opcode() == JMP || t.opcode() == JC || t.opcode() == JZ {
        assert(t.word() == IO | J);
    } else {
        assert(t.word() == 0);
    }
    assert(u.instruction == t.instruction && u.step == 3);
    assert(u.word() == 0);
    assert(v.instruction == t.instruction && v.step == 4);
    assert(v.word() == 0);
}

/// The microcode implements the instruction set: from the first step of
/// an instruction other than halt, five ticks, none of which stops the
/// machine, lead to the state that the instruction set defines, ready for
/// the first step of the next instruction.
pub proof fn lemma_five_ticks_execute(s: StateView)
    requires
        s.wf(),
        s.step == 0,
        s.memory[s.counter as int] >> 4 != HALT,
    ensures
        s.runs_for(5),
        s.advance(5).wf(),
        s.advance(5).step == 0,
        same_registers(s.advance(5), spec_execute(s)),
{
    lemma_fetched(s);
    let t = s.advance(2);
    assert(s.advance(3) == t.tick());
    assert(s.advance(4) == t.tick().tick());
    assert(s.advance(5) == t.tick().tick().tick());
    lemma_advance_keeps_wf(s, 5);
    if t.opcode() == LDA || t.opcode() == ADD || t.opcode() == SUB || t.opcode() == STA {
        lemma_memory_steps(t);
    } else {
        lemma_register_steps(t);
    }
    assert forall|k: nat| k < 5 implies !(#[trigger] s.advance(k)).halts() by {
        if k < 2 {
            assert(s.runs_for(2));
        }
    }
}

/// From the first step of a halt instruction, the two fetch ticks run and
/// the third stops the machine, which then stays as the fetch left it.
pub proof fn lemma_halt_instruction(s: StateView, n: nat)
    requires
        s.wf(),
        s.step == 0,
        s.memory[s.counter as int] >> 4 == HALT,
        n >= 3,
    ensures
        s.runs_for(2),
        s.advance(2).halts(),
        s.advance(n) == s.advance(2).tick(),
        same_registers(s.advance(n), s.advance(2)),
{
    lemma_fetched(s);
    lemma_table_lines();
    let t = s.advance(2);
    assert(t.word() == HLT);
    lemma_advance_adds(s, 2, (n - 2) as nat);
    lemma_halted_stays_halted(t, (n - 2) as nat);
}

} // verus!
