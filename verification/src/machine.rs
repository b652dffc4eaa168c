//! The machine's state and the cycle engine that moves it on, one clock
//! tick at a time.

use vstd::prelude::*;
use crate::alu::{alu, alu_carry, alu_sum};
use crate::bits::{lemma_low_nibble_is_remainder, low_nibble, u4};
use crate::microcode::{
    control_word, flag_set, flags_of, flags_valid, is_flag_set, is_raised, lemma_flags_valid,
    raised, spec_control_word, spec_flags, AI, AO, BI, CE, CF, CO, EO, FI, HLT, II, IO, J, JC, JZ,
    MI, OI, RI, RO, STEPS, SU, ZF,
};

verus! {

/// Everything an observer can see of the machine between two ticks.
#[derive(Clone, Copy, Debug, PartialEq, Eq)]
pub struct State {
    /// The accumulator.
    pub a: u8,
    /// The adder's second operand.
    pub b: u8,
    /// The adder's result, as of the last tick that did not halt.
    pub sum: u8,
    /// The output register.
    pub output: u8,
    /// The instruction register: opcode in the high nibble, operand in the low.
    pub instruction: u8,
    /// The program counter, four bits wide.
    pub counter: u8,
    /// The memory address register, four bits wide.
    pub address: u8,
    /// The flags byte: `CF` and `ZF`.
    pub flags: u8,
    /// The micro-step that the next tick executes.
    pub step: u8,
    /// What the bus carried during the last tick.
    pub bus: u8,
    /// The control word of the last tick.
    pub control: u32,
    /// The sixteen memory cells.
    pub memory: [u8; 16],
}

/// The mathematical model of a [`State`]: the same registers, with the
/// memory as a sequence.
pub struct StateView {
    pub a: u8,
    pub b: u8,
    pub sum: u8,
    pub output: u8,
    pub instruction: u8,
    pub counter: u8,
    pub address: u8,
    pub flags: u8,
    pub step: u8,
    pub bus: u8,
    pub control: u32,
    pub memory: Seq<u8>,
}

impl View for State {
    type V = StateView;

    open spec fn view(&self) -> StateView {
        StateView {
            a: self.a,
            b: self.b,
            sum: self.sum,
            output: self.output,
            instruction: self.instruction,
            counter: self.counter,
            address: self.address,
            flags: self.flags,
            step: self.step,
            bus: self.bus,
            control: self.control,
            memory: self.memory@,
        }
    }
}

/// The program counter after counting: one more, and sixteen is zero again.
pub open spec fn spec_next_counter(counter: u8) -> u8 {
    ((counter + 1) % 16) as u8
}

/// The micro-step after `step`: one more, and the fifth is followed by the
/// first.
pub open spec fn spec_next_step(step: u8) -> u8 {
    ((step + 1) % 5) as u8
}

/// Whether an instruction with this opcode may write the program counter
/// when the jump line is raised: the two conditional jumps only with their
/// flag set, every other instruction always.
pub open spec fn spec_jump_allowed(opcode: u8, flags: u8) -> bool {
    if opcode == JC {
        flag_set(flags, CF)
    } else if opcode == JZ {
        flag_set(flags, ZF)
    } else {
        true
    }
}

impl StateView {
    /// The state before the first tick: the given memory image, and zero
    /// everywhere else.
    pub open spec fn reset(memory: Seq<u8>) -> StateView {
        StateView {
            a: 0,
            b: 0,
            sum: 0,
            output: 0,
            instruction: 0,
            counter: 0,
            address: 0,
            flags: 0,
            step: 0,
            bus: 0,
            control: 0,
            memory,
        }
    }

    /// The 4-bit registers hold 4-bit values, the flags byte holds nothing
    /// but the two flags, the micro-step is one of the five, and there are
    /// sixteen memory cells.
    pub open spec fn wf(self) -> bool {
        &&& self.counter < 16
        &&& self.address < 16
        &&& flags_valid(self.flags)
        &&& self.step < 5
        &&& self.memory.len() == 16
    }

    /// The opcode of the instruction in the instruction register.
    pub open spec fn opcode(self) -> u8 {
        self.instruction >> 4
    }

    /// The control word that the next tick executes.
    pub open spec fn word(self) -> u32 {
        spec_control_word(self.opcode(), self.step)
    }

    /// Whether the next tick stops the machine.
    pub open spec fn halts(self) -> bool {
        raised(self.word(), HLT)
    }

    /// What the bus carries during a tick with control word `word`, given
    /// the adder's result and the program counter after counting. Of
    /// several sources raised at once, the one latest in the order memory,
    /// instruction register, accumulator, sum, counter drives the bus;
    /// with none raised the bus is zero.
    pub open spec fn driven_bus(self, word: u32, sum: u8, counter: u8) -> u8 {
        if raised(word, CO) {
            counter
        } else if raised(word, EO) {
            sum
        } else if raised(word, AO) {
            self.a
        } else if raised(word, IO) {
            low_nibble(self.instruction)
        } else if raised(word, RO) {
            self.memory[self.address as int]
        } else {
            0
        }
    }

    /// The state after one clock tick.
    ///
    /// A tick whose control word raises the halt line changes no register
    /// and no memory cell. Any other tick counts, computes the adder's
    /// outputs from the registers as they stood, takes the flags from them
    /// if the flags line is raised, drives the bus, lets every raised sink
    /// read it (the memory cell written is the one addressed after the
    /// address register has read the bus), resolves a jump against the
    /// instruction register and flags as they then stand, and moves to the
    /// next micro-step.
    pub open spec fn tick(self) -> StateView {
        let word = self.word();
        if raised(word, HLT) {
            StateView { bus: 0, control: word, ..self }
        } else {
            let subtract = raised(word, SU);
            let counted = if raised(word, CE) {
                spec_next_counter(self.counter)
            } else {
                self.counter
            };
            let sum = alu_sum(self.a, self.b, subtract);
            let flags = if raised(word, FI) {
                spec_flags(sum, alu_carry(self.a, self.b, subtract))
            } else {
                self.flags
            };
            let bus = self.driven_bus(word, sum, counted);
            let address = if raised(word, MI) {
                low_nibble(bus)
            } else {
                self.address
            };
            let instruction = if raised(word, II) {
                bus
            } else {
                self.instruction
            };
            StateView {
                a: if raised(word, AI) {
                    bus
                } else {
                    self.a
                },
                b: if raised(word, BI) {
                    bus
                } else {
                    self.b
                },
                sum,
                output: if raised(word, OI) {
                    bus
                } else {
                    self.output
                },
                instruction,
                counter: if raised(word, J) && spec_jump_allowed(instruction >> 4, flags) {
                    low_nibble(bus)
                } else {
                    counted
                },
                address,
                flags,
                step: spec_next_step(self.step),
                bus,
                control: word,
                memory: if raised(word, RI) {
                    self.memory.update(address as int, bus)
                } else {
                    self.memory
                },
            }
        }
    }

    /// The state after `n` clock ticks.
    pub open spec fn advance(self, n: nat) -> StateView
        decreases n,
    {
        if n == 0 {
            self
        } else {
            self.advance((n - 1) as nat).tick()
        }
    }

    /// Whether none of the first `n` ticks stops the machine.
    pub open spec fn runs_for(self, n: nat) -> bool {
        forall|k: nat| k < n ==> !(#[trigger] self.advance(k)).halts()
    }
}

/// A tick keeps a well-formed state well formed.
pub proof fn lemma_tick_keeps_wf(s: StateView)
    requires
        s.wf(),
    ensures
        s.tick().wf(),
{
    let t = s.tick();
    lemma_low_nibble_is_remainder(t.bus);
    lemma_flags_valid(t.sum, alu_carry(s.a, s.b, raised(s.word(), SU)));
}

/// Any number of ticks keeps a well-formed state well formed.
pub proof fn lemma_advance_keeps_wf(s: StateView, n: nat)
    requires
        s.wf(),
    ensures
        s.advance(n).wf(),
    decreases n,
{
    if n > 0 {
        lemma_advance_keeps_wf(s, (n - 1) as nat);
        lemma_tick_keeps_wf(s.advance((n - 1) as nat));
    }
}

/// The machine: a [`State`] that only the cycle engine changes, so that its
/// 4-bit registers, its flags and its micro-step never leave their ranges.
pub struct Machine {
    state: State,
}

impl View for Machine {
    type V = StateView;

    closed spec fn view(&self) -> StateView {
        self.state@
    }
}

impl Machine {
    #[verifier::type_invariant]
    spec fn inv(self) -> bool {
        self.state@.wf()
    }

    /// A machine with the given memory image and every register, the
    /// flags, the micro-step and the bus at zero.
    pub fn new(memory: [u8; 16]) -> (machine: Machine)
        ensures
            machine@ == StateView::reset(memory@),
            machine@.wf(),
    {
        Machine {
            state: State {
                a: 0,
                b: 0,
                sum: 0,
                output: 0,
                instruction: 0,
                counter: 0,
                address: 0,
                flags: 0,
                step: 0,
                bus: 0,
                control: 0,
                memory,
            },
        }
    }

    /// A copy of the machine's state, for an observer to read.
    pub fn state(&self) -> (state: State)
        ensures
            state@ == self@,
            self@.wf(),
    {
        proof {
            use_type_invariant(self);
        }
        self.state
    }

    /// Executes one clock tick and reports whether it stopped the machine.
    pub fn tick(&mut self) -> (halted: bool)
        ensures
            final(self)@ == old(self)@.tick(),
            halted == old(self)@.halts(),
            old(self)@.wf(),
            final(self)@.wf(),
    {
        proof {
            use_type_invariant(&*self);
            lemma_tick_keeps_wf(self@);
        }
        let s = self.state;
        let word = control_word(s.instruction >> 4, s.step);
        if is_raised(word, HLT) {
            self.state = State { bus: 0, control: word, ..s };
            return true;
        }
        let counted = if is_raised(word, CE) {
            next_counter(s.counter)
        } else {
            s.counter
        };
        let (sum, carry) = alu(s.a, s.b, is_raised(word, SU));
        let flags = if is_raised(word, FI) {
            flags_of(sum, carry)
        } else {
            s.flags
        };
        let bus = drive_bus(&s, word, sum, counted);
        let address = if is_raised(word, MI) {
            u4(bus)
        } else {
            s.address
        };
        let mut memory = s.memory;
        if is_raised(word, RI) {
            memory[address as usize] = bus;
        }
        let instruction = latch(word, II, bus, s.instruction);
        let counter = if is_raised(word, J) && jump_allowed(instruction >> 4, flags) {
            u4(bus)
        } else {
            counted
        };
        self.state = State {
            a: latch(word, AI, bus, s.a),
            b: latch(word, BI, bus, s.b),
            sum,
            output: latch(word, OI, bus, s.output),
            instruction,
            counter,
            address,
            flags,
            step: next_step(s.step),
            bus,
            control: word,
            memory,
        };
        false
    }

    /// Executes clock ticks until one stops the machine, but at most
    /// `limit` of them. Returns the number of ticks executed before the
    /// one that stopped the machine, or `None` if none of the `limit`
    /// ticks did.
    pub fn run(&mut self, limit: u64) -> (halted_after: Option<u64>)
        ensures
            old(self)@.wf(),
            final(self)@.wf(),
            match halted_after {
                Some(n) => {
                    &&& n < limit
                    &&& old(self)@.runs_for(n as nat)
                    &&& old(self)@.advance(n as nat).halts()
                    &&& final(self)@ == old(self)@.advance(n as nat).tick()
                },
                None => {
                    &&& old(self)@.runs_for(limit as nat)
                    &&& final(self)@ == old(self)@.advance(limit as nat)
                },
            },
    {
        proof {
            use_type_invariant(&*self);
        }
        let ghost start = self@;
        let mut done: u64 = 0;
        while done < limit
            invariant
                done <= limit,
                start == old(self)@,
                start.wf(),
                self@ == start.advance(done as nat),
                self@.wf(),
                start.runs_for(done as nat),
            decreases limit - done,
        {
            if self.tick() {
                return Some(done);
            }
            done = done + 1;
        }
        None
    }
}

/// Counts the program counter on by one, from fifteen back to zero.
pub fn next_counter(counter: u8) -> (next: u8)
    requires
        counter < 16,
    ensures
        next == spec_next_counter(counter),
{
    if counter == 15 {
        0
    } else {
        counter + 1
    }
}

/// Moves to the next micro-step, from the fifth back to the first.
pub fn next_step(step: u8) -> (next: u8)
    requires
        step < STEPS,
    ensures
        next == spec_next_step(step),
{
    if step + 1 == STEPS {
        0
    } else {
        step + 1
    }
}

/// What a register holds after a tick: the bus if its line is raised in
/// the control word, else what it held.
pub fn latch(word: u32, line: u32, bus: u8, held: u8) -> (value: u8)
    ensures
        value == if raised(word, line) {
            bus
        } else {
            held
        },
{
    if is_raised(word, line) {
        bus
    } else {
        held
    }
}

/// Puts on the bus what the raised source lines of the control word drive
/// onto it, each later source overwriting the earlier ones.
pub fn drive_bus(state: &State, word: u32, sum: u8, counter: u8) -> (bus: u8)
    requires
        state@.wf(),
    ensures
        bus == state@.driven_bus(word, sum, counter),
{
    let mut bus: u8 = 0;
    if is_raised(word, RO) {
        bus = state.memory[state.address as usize];
    }
    if is_raised(word, IO) {
        bus = u4(state.instruction);
    }
    if is_raised(word, AO) {
        bus = state.a;
    }
    if is_raised(word, EO) {
        bus = sum;
    }
    if is_raised(word, CO) {
        bus = counter;
    }
    bus
}

/// Decides whether an instruction with this opcode may write the program
/// counter when the jump line is raised.
pub fn jump_allowed(opcode: u8, flags: u8) -> (allowed: bool)
    ensures
        allowed == spec_jump_allowed(opcode, flags),
{
    if opcode == JC {
        is_flag_set(flags, CF)
    } else if opcode == JZ {
        is_flag_set(flags, ZF)
    } else {
        true
    }
}

} // verus!
