//! What holds of the machine on every state: which lines each control word
//! raises, when the flags and the program counter change, and that a halted
//! machine stays as it is.

use vstd::prelude::*;
use crate::alu::{alu_carry, alu_sum};
use crate::bits::low_nibble;
use crate::machine::{spec_jump_allowed, spec_next_counter, StateView};
use crate::microcode::{
    flag_set, lemma_table_lines, raised, spec_control_word, spec_flags, ADD, AO, CF, CO, EO, FI,
    HALT, IO, J, JC, JMP, JZ, RO, SU, SUB, ZF,
};

verus! {

/// The flags byte that the adder gives has a flag exactly when the adder
/// reports it.
pub proof fn lemma_flags_read_back(sum: u8, carry: bool)
    ensures
        flag_set(spec_flags(sum, carry), CF) == carry,
        flag_set(spec_flags(sum, carry), ZF) == (sum == 0),
{
    assert(flag_set(0u8 | 0u8, CF) == false && flag_set(0u8 | 0u8, ZF) == false) by (bit_vector);
    assert(flag_set(CF | 0u8, CF) == true && flag_set(CF | 0u8, ZF) == false) by (bit_vector);
    assert(flag_set(0u8 | ZF, CF) == false && flag_set(0u8 | ZF, ZF) == true) by (bit_vector);
    assert(flag_set(CF | ZF, CF) == true && flag_set(CF | ZF, ZF) == true) by (bit_vector);
}

/// Narrowing a narrowed value changes nothing.
pub proof fn lemma_low_nibble_twice(x: u8)
    ensures
        low_nibble(low_nibble(x)) == low_nibble(x),
{
    assert((x & 0x0f) & 0x0f == x & 0x0f) by (bit_vector);
}

/// A tick stops the machine exactly at the third step of the halt
/// instruction.
pub proof fn lemma_halts_iff_halt_instruction(s: StateView)
    requires
        s.wf(),
    ensures
        s.halts() <==> s.opcode() == HALT && s.step == 2,
{
    lemma_table_lines();
}

/// A tick that stops the machine changes no register, no flag, no memory
/// cell and not the micro-step: it only clears the bus and records the
/// control word. So the next tick stops the machine again.
pub proof fn lemma_halt_changes_nothing(s: StateView)
    requires
        s.halts(),
    ensures
        s.tick() == (StateView { bus: 0, control: s.word(), ..s }),
        s.tick().halts(),
        s.tick().tick() == s.tick(),
{
}

/// A machine that is about to halt is in the same state after any number
/// of ticks as after one.
pub proof fn lemma_halted_stays_halted(s: StateView, n: nat)
    requires
        s.halts(),
        n >= 1,
    ensures
        s.advance(n) == s.tick(),
    decreases n,
{
    if n == 1 {
        assert(s.advance(0) == s);
    } else {
        lemma_halted_stays_halted(s, (n - 1) as nat);
        lemma_halt_changes_nothing(s);
    }
}

/// The flags change exactly on the last step of an addition or a
/// subtraction; on every other tick they stay as they were.
pub proof fn lemma_flags_line_iff_arithmetic(s: StateView)
    requires
        s.wf(),
    ensures
        raised(s.word(), FI) <==> s.step == 4 && (s.opcode() == ADD || s.opcode() == SUB),
        raised(s.word(), FI) ==> !s.halts() && (raised(s.word(), SU) <==> s.opcode() == SUB),
        !raised(s.word(), FI) ==> s.tick().flags == s.flags,
{
    lemma_table_lines();
}

/// After a tick that raises the flags line, the flags are those of the
/// adder's outputs on that tick's operands: the carry flag is set exactly
/// if the adder carried, the zero flag exactly if its result is zero,
/// whatever the flags were before.
pub proof fn lemma_flags_are_fresh(s: StateView)
    requires
        raised(s.word(), FI),
        !s.halts(),
    ensures
        s.tick().flags == spec_flags(
            alu_sum(s.a, s.b, raised(s.word(), SU)),
            alu_carry(s.a, s.b, raised(s.word(), SU)),
        ),
        flag_set(s.tick().flags, CF) == alu_carry(s.a, s.b, raised(s.word(), SU)),
        flag_set(s.tick().flags, ZF) == (alu_sum(s.a, s.b, raised(s.word(), SU)) == 0),
{
    lemma_flags_read_back(
        alu_sum(s.a, s.b, raised(s.word(), SU)),
        alu_carry(s.a, s.b, raised(s.word(), SU)),
    );
}

/// Two machines whose ticks both raise the flags line, with the same
/// operands in A and B and the same operation, have the same flags after
/// the tick, however their flags and the rest of their states differed
/// before.
pub proof fn lemma_flags_depend_on_operands_only(s: StateView, t: StateView)
    requires
        raised(s.word(), FI),
        raised(t.word(), FI),
        !s.halts(),
        !t.halts(),
        s.a == t.a,
        s.b == t.b,
        raised(s.word(), SU) == raised(t.word(), SU),
    ensures
        s.tick().flags == t.tick().flags,
{
}

/// Counting goes from fifteen to zero, and from any other counter value
/// to the next.
pub proof fn lemma_counter_wraps(counter: u8)
    requires
        counter < 16,
    ensures
        spec_next_counter(counter) < 16,
        counter == 15 ==> spec_next_counter(counter) == 0,
        counter < 15 ==> spec_next_counter(counter) == counter + 1,
{
}

/// The jump step of a jump instruction. The operand of the instruction
/// goes on the bus. An unconditional jump writes it to the program
/// counter. A jump-if-carry writes it if the carry flag is set, and a
/// jump-if-zero if the zero flag is set; with the flag clear the program
/// counter stays as the fetch left it. Nothing else changes but the
/// recorded sum and control word.
pub proof fn lemma_jump_step(s: StateView)
    requires
        s.step == 2,
        s.opcode() == JMP || s.opcode() == JC || s.opcode() == JZ,
    ensures
        !s.halts(),
        s.tick() == (StateView {
            counter: if spec_jump_allowed(s.opcode(), s.flags) {
                low_nibble(s.instruction)
            } else {
                s.counter
            },
            bus: low_nibble(s.instruction),
            sum: alu_sum(s.a, s.b, false),
            control: IO | J,
            step: 3,
            ..s
        }),
        s.opcode() == JMP ==> s.tick().counter == low_nibble(s.instruction),
        s.opcode() == JC && flag_set(s.flags, CF) ==> s.tick().counter == low_nibble(
            s.instruction,
        ),
        s.opcode() == JC && !flag_set(s.flags, CF) ==> s.tick().counter == s.counter,
        s.opcode() == JZ && flag_set(s.flags, ZF) ==> s.tick().counter == low_nibble(
            s.instruction,
        ),
        s.opcode() == JZ && !flag_set(s.flags, ZF) ==> s.tick().counter == s.counter,
{
    lemma_table_lines();
    lemma_low_nibble_twice(s.instruction);
    assert(s.word() == IO | J);
}

/// No word of the table lets two sources drive the bus at once.
pub proof fn lemma_one_bus_source(opcode: u8, step: u8)
    ensures
        ({
            let word = spec_control_word(opcode, step);
            let sources = seq![RO, IO, AO, EO, CO];
            forall|i: int, j: int|
                0 <= i < j < 5 ==> !(raised(word, #[trigger] sources[i]) && raised(
                    word,
                    #[trigger] sources[j],
                ))
        }),
{
    lemma_table_lines();
}

/// Running `m` ticks and then `n` more is running `m + n` ticks.
pub proof fn lemma_advance_adds(s: StateView, m: nat, n: nat)
    ensures
        s.advance(m).advance(n) == s.advance(m + n),
    decreases n,
{
    if n > 0 {
        lemma_advance_adds(s, m, (n - 1) as nat);
    }
}

} // verus!
