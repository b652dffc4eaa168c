//! A sample program for the machine, and what is known of its run.

use vstd::prelude::*;
use crate::bits::low_nibble;
use crate::instructions::{lemma_five_ticks_execute, same_registers, spec_execute};
use crate::laws::lemma_advance_adds;
use crate::machine::StateView;
use crate::microcode::{encode, spec_encode, ADD, JC, JMP, LDA, LDI, OUT, STA};

verus! {

/// The memory image of the Fibonacci program: thirteen instructions, and
/// three cells of data behind them.
///
/// The program keeps two neighbouring Fibonacci numbers in cells 14 and
/// 15, shows each number on the output register, and starts again from
/// the beginning once an addition carries.
pub open spec fn spec_fibonacci() -> Seq<u8> {
    seq![
        spec_encode(LDI, 0x1),
        spec_encode(STA, 0xe),
        spec_encode(LDI, 0x0),
        spec_encode(OUT, 0x0),
        spec_encode(ADD, 0xe),
        spec_encode(STA, 0xf),
        spec_encode(LDA, 0xe),
        spec_encode(STA, 0xd),
        spec_encode(LDA, 0xf),
        spec_encode(STA, 0xe),
        spec_encode(LDA, 0xd),
        spec_encode(JC, 0x0),
        spec_encode(JMP, 0x3),
        0u8,
        0u8,
        0u8,
    ]
}

/// Builds the memory image of the Fibonacci program.
pub fn fibonacci() -> (memory: [u8; 16])
    ensures
        memory@ == spec_fibonacci(),
{
    let memory = [
        encode(LDI, 0x1),
        encode(STA, 0xe),
        encode(LDI, 0x0),
        encode(OUT, 0x0),
        encode(ADD, 0xe),
        encode(STA, 0xf),
        encode(LDA, 0xe),
        encode(STA, 0xd),
        encode(LDA, 0xf),
        encode(STA, 0xe),
        encode(LDA, 0xd),
        encode(JC, 0x0),
        encode(JMP, 0x3),
        0x00,
        0x00,
        0x00,
    ];
    assert(memory@ =~= spec_fibonacci());
    memory
}

/// Whether the machine is at the first step of one of the thirteen
/// instructions of the Fibonacci program, with the program's code intact.
pub open spec fn in_fibonacci(s: StateView) -> bool {
    &&& s.wf()
    &&& s.step == 0
    &&& s.counter <= 12
    &&& forall|i: int| 0 <= i < 13 ==> s.memory[i] == #[trigger] spec_fibonacci()[i]
}

/// An opcode and an operand of four bits each can be read back from the
/// byte they were packed into.
pub proof fn lemma_encoding()
    by (bit_vector)
    ensures
        forall|opcode: u8, operand: u8|
            opcode < 16 && operand < 16 ==> (#[trigger] spec_encode(opcode, operand)) >> 4
                == opcode && low_nibble(spec_encode(opcode, operand)) == operand,
{
}

/// One instruction of the Fibonacci program leads to the first step of
/// another, without stopping the machine and without touching the code.
pub proof fn lemma_fibonacci_instruction(s: StateView)
    requires
        in_fibonacci(s),
    ensures
        s.runs_for(5),
        in_fibonacci(s.advance(5)),
{
    lemma_encoding();
    let code = spec_fibonacci();
    let byte = s.memory[s.counter as int];
    assert(byte == code[s.counter as int]);
    lemma_five_ticks_execute(s);
    let next = spec_execute(s);
    assert(same_registers(s.advance(5), next));
    assert(next.counter <= 12);
    assert forall|i: int| 0 <= i < 13 implies next.memory[i] == #[trigger] spec_fibonacci()[i] by {
        assert(s.memory[i] == spec_fibonacci()[i]);
    }
}

/// The Fibonacci program never stops the machine: whatever the registers
/// hold when it is at the first step of one of its instructions, no later
/// tick halts.
pub proof fn lemma_fibonacci_runs_on(s: StateView, n: nat)
    requires
        in_fibonacci(s),
    ensures
        !s.advance(n).halts(),
    decreases n,
{
    lemma_fibonacci_instruction(s);
    if n >= 5 {
        lemma_advance_adds(s, 5, (n - 5) as nat);
        lemma_fibonacci_runs_on(s.advance(5), (n - 5) as nat);
    }
}

/// Started on the Fibonacci program, the machine never halts.
pub proof fn lemma_fibonacci_never_halts(n: nat)
    ensures
        !StateView::reset(spec_fibonacci()).advance(n).halts(),
{
    lemma_fibonacci_runs_on(StateView::reset(spec_fibonacci()), n);
}

} // verus!
