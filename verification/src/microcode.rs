//! The instruction set and its microcode: which control lines are raised at
//! each step of each instruction.

use vstd::prelude::*;

verus! {

/// Halt: stop the clock.
pub const HLT: u32 = 0x0_0002;

/// Memory address register in.
pub const MI: u32 = 0x0_0004;

/// Memory in: the addressed cell takes the bus.
pub const RI: u32 = 0x0_0008;

/// Memory out: the addressed cell drives the bus.
pub const RO: u32 = 0x0_0010;

/// Instruction register out: its operand nibble drives the bus.
pub const IO: u32 = 0x0_0020;

/// Instruction register in.
pub const II: u32 = 0x0_0040;

/// A register in.
pub const AI: u32 = 0x0_0080;

/// A register out.
pub const AO: u32 = 0x0_0100;

/// Sum out: the adder's result drives the bus.
pub const EO: u32 = 0x0_0200;

/// Subtract: the adder computes `A - B` instead of `A + B`.
pub const SU: u32 = 0x0_0400;

/// B register in.
pub const BI: u32 = 0x0_0800;

/// Output register in.
pub const OI: u32 = 0x0_1000;

/// Counter enable: the program counter moves on by one.
pub const CE: u32 = 0x0_2000;

/// Counter out: the program counter drives the bus.
pub const CO: u32 = 0x0_4000;

/// Jump: the program counter takes the bus.
pub const J: u32 = 0x0_8000;

/// Flags in: the flags take the adder's carry and zero outputs.
pub const FI: u32 = 0x1_0000;

/// Carry flag.
pub const CF: u8 = 0x02;

/// Zero flag.
pub const ZF: u8 = 0x04;

/// No operation.
pub const NOP: u8 = 0x0;

/// Load A from the addressed cell.
pub const LDA: u8 = 0x1;

/// Add the addressed cell to A.
pub const ADD: u8 = 0x2;

/// Subtract the addressed cell from A.
pub const SUB: u8 = 0x3;

/// Store A in the addressed cell.
pub const STA: u8 = 0x4;

/// Load A with the operand itself.
pub const LDI: u8 = 0x5;

/// Jump to the operand.
pub const JMP: u8 = 0x6;

/// Jump to the operand if the carry flag is set.
pub const JC: u8 = 0x7;

/// Jump to the operand if the zero flag is set.
pub const JZ: u8 = 0x8;

/// Copy A to the output register.
pub const OUT: u8 = 0xe;

/// Stop the machine.
pub const HALT: u8 = 0xf;

/// Number of micro-steps that every instruction takes.
pub const STEPS: u8 = 5;

/// Whether every line of `line` is raised in the control word `word`.
pub open spec fn raised(word: u32, line: u32) -> bool {
    word & line == line
}

/// Whether every bit of `flag` is set in the flags byte `flags`.
pub open spec fn flag_set(flags: u8, flag: u8) -> bool {
    flags & flag == flag
}

/// The control word of the third step of an instruction, the first after
/// the fetch.
pub open spec fn spec_third_step(opcode: u8) -> u32 {
    if opcode == LDA || opcode == ADD || opcode == SUB || opcode == STA {
        IO | MI
    } else if opcode == LDI {
        IO | AI
    } else if opcode == JMP || opcode == JC || opcode == JZ {
        IO | J
    } else if opcode == OUT {
        AO | OI
    } else if opcode == HALT {
        HLT
    } else {
        0
    }
}

/// The control word of the fourth step of an instruction.
pub open spec fn spec_fourth_step(opcode: u8) -> u32 {
    if opcode == LDA {
        RO | AI
    } else if opcode == ADD || opcode == SUB {
        RO | BI
    } else if opcode == STA {
        AO | RI
    } else {
        0
    }
}

/// The control word of the fifth step of an instruction.
pub open spec fn spec_fifth_step(opcode: u8) -> u32 {
    if opcode == ADD {
        EO | AI | FI
    } else if opcode == SUB {
        EO | AI | SU | FI
    } else {
        0
    }
}

/// The microcode table: the control word of step `step` of the instruction
/// with code `opcode`. The first two steps fetch, whatever the instruction;
/// codes without an instruction do nothing after the fetch, and steps past
/// the fifth do not exist and raise no line.
pub open spec fn spec_control_word(opcode: u8, step: u8) -> u32 {
    if step == 0 {
        MI | CO
    } else if step == 1 {
        RO | II | CE
    } else if step == 2 {
        spec_third_step(opcode)
    } else if step == 3 {
        spec_fourth_step(opcode)
    } else if step == 4 {
        spec_fifth_step(opcode)
    } else {
        0
    }
}

/// Whether `line` is one of the sixteen control lines.
pub open spec fn is_line(line: u32) -> bool {
    line == HLT || line == MI || line == RI || line == RO || line == IO || line == II || line == AI
        || line == AO || line == EO || line == SU || line == BI || line == OI || line == CE || line
        == CO || line == J || line == FI
}

/// Each control word of the table raises the lines it is made of and no
/// other line.
pub proof fn lemma_table_lines()
    by (bit_vector)
    ensures
        forall|line: u32|
            is_line(line) ==> (#[trigger] raised(0u32, line) <==> false),
        forall|line: u32|
            is_line(line) ==> (#[trigger] raised(HLT, line) <==> line == HLT),
        forall|line: u32|
            is_line(line) ==> (#[trigger] raised(MI | CO, line) <==> line == MI || line == CO),
        forall|line: u32|
            is_line(line) ==> (#[trigger] raised(RO | II | CE, line) <==> line == RO || line == II || line == CE),
        forall|line: u32|
            is_line(line) ==> (#[trigger] raised(IO | MI, line) <==> line == IO || line == MI),
        forall|line: u32|
            is_line(line) ==> (#[trigger] raised(IO | AI, line) <==> line == IO || line == AI),
        forall|line: u32|
            is_line(line) ==> (#[trigger] raised(IO | J, line) <==> line == IO || line == J),
        forall|line: u32|
            is_line(line) ==> (#[trigger] raised(AO | OI, line) <==> line == AO || line == OI),
        forall|line: u32|
            is_line(line) ==> (#[trigger] raised(RO | AI, line) <==> line == RO || line == AI),
        forall|line: u32|
            is_line(line) ==> (#[trigger] raised(RO | BI, line) <==> line == RO || line == BI),
        forall|line: u32|
            is_line(line) ==> (#[trigger] raised(AO | RI, line) <==> line == AO || line == RI),
        forall|line: u32|
            is_line(line) ==> (#[trigger] raised(EO | AI | FI, line) <==> line == EO || line == AI || line == FI),
        forall|line: u32|
            is_line(line) ==> (#[trigger] raised(EO | AI | SU | FI, line) <==> line == EO || line == AI || line == SU || line == FI),
{
}

/// Tests whether the control word raises all of the given lines.
pub fn is_raised(word: u32, line: u32) -> (yes: bool)
    ensures
        yes == raised(word, line),
{
    word & line == line
}

/// Tests whether the flags byte has all of the given flag bits.
pub fn is_flag_set(flags: u8, flag: u8) -> (yes: bool)
    ensures
        yes == flag_set(flags, flag),
{
    flags & flag == flag
}

/// Looks up the microcode table.
pub fn control_word(opcode: u8, step: u8) -> (word: u32)
    ensures
        word == spec_control_word(opcode, step),
{
    match step {
        0 => MI | CO,
        1 => RO | II | CE,
        2 => match opcode {
            LDA | ADD | SUB | STA => IO | MI,
            LDI => IO | AI,
            JMP | JC | JZ => IO | J,
            OUT => AO | OI,
            HALT => HLT,
            _ => 0,
        },
        3 => match opcode {
            LDA => RO | AI,
            ADD | SUB => RO | BI,
            STA => AO | RI,
            _ => 0,
        },
        4 => match opcode {
            ADD => EO | AI | FI,
            SUB => EO | AI | SU | FI,
            _ => 0,
        },
        _ => 0,
    }
}

/// The flags that the adder's outputs give: carry if it carried, zero if
/// its result is zero, and no other bit.
pub open spec fn spec_flags(sum: u8, carry: bool) -> u8 {
    (if carry { CF } else { 0u8 }) | (if sum == 0 { ZF } else { 0u8 })
}

/// Whether the flags byte holds nothing but the two flags.
pub open spec fn flags_valid(flags: u8) -> bool {
    flags == 0 || flags == CF || flags == ZF || flags == CF | ZF
}

/// The flags that the adder's outputs give hold nothing but the two flags.
pub proof fn lemma_flags_valid(sum: u8, carry: bool)
    ensures
        flags_valid(spec_flags(sum, carry)),
{
    assert(0u8 | 0u8 == 0u8 && CF | 0u8 == CF && 0u8 | ZF == ZF) by (bit_vector);
}

/// Computes the flags byte from the adder's outputs.
pub fn flags_of(sum: u8, carry: bool) -> (flags: u8)
    ensures
        flags == spec_flags(sum, carry),
        flags_valid(flags),
{
    proof {
        lemma_flags_valid(sum, carry);
    }
    let carry_bit: u8 = if carry {
        CF
    } else {
        0
    };
    let zero_bit: u8 = if sum == 0 {
        ZF
    } else {
        0
    };
    carry_bit | zero_bit
}

/// Packs an opcode and its operand into one memory byte: the opcode in the
/// high nibble, the operand in the low one.
pub open spec fn spec_encode(opcode: u8, operand: u8) -> u8 {
    (opcode << 4) | operand
}

/// Packs an opcode and its operand into one memory byte.
pub fn encode(opcode: u8, operand: u8) -> (byte: u8)
    ensures
        byte == spec_encode(opcode, operand),
        operand < 16 && opcode < 16 ==> byte >> 4 == opcode && byte & 0x0f == operand,
{
    proof {
        assert(operand < 16 && opcode < 16 ==> ((opcode << 4) | operand) >> 4 == opcode && ((opcode
            << 4) | operand) & 0x0f == operand) by (bit_vector);
    }
    (opcode << 4) | operand
}

} // verus!
