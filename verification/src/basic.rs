//! A reduced core: accumulator, index register, a raw status byte and a
//! program counter, interpreting a program slice directly from index zero.
//! It carries the same flag rule as the full engine and serves as the
//! smallest demonstration of it; the full engine in [`crate::cpu`] adds
//! memory, the stack, and the dispatch table.

use vstd::prelude::*;

use crate::flags::{has_flag, zn_update, NEGATIVE, ZERO};

verus! {

/// The reduced machine state as mathematics.
pub ghost struct BasicState {
    pub a: u8,
    pub x: u8,
    pub status: u8,
    pub pc: u16,
}

/// What one step of the reduced interpreter reported: still running, halted,
/// an opcode it does not know, or a fetch past the end of the program slice.
#[derive(Clone, Copy, Debug, PartialEq, Eq, Structural)]
pub enum BasicOutcome {
    Running,
    Halted,
    IllegalOpcode(u8),
    OutOfBounds,
}

/// Applies the shared zero/negative rule to a raw status byte: Zero is set
/// iff `register` is zero, Negative iff its bit 7 is set, and — by
/// [`crate::flags::lemma_zn_update`] — every other bit keeps its prior value,
/// whatever the byte held before.
pub fn update_status_flag(register: u8, status: &mut u8)
    ensures
        *final(status) == zn_update(*old(status), register),
        has_flag(*final(status), ZERO) == (register == 0),
        has_flag(*final(status), NEGATIVE) == (register & 0x80 != 0),
        *final(status) & 0x7d == *old(status) & 0x7d,
{
    if register == 0 {
        *status = *status | ZERO;
    } else {
        *status = *status & !ZERO;
    }
    if register & 0x80 != 0 {
        *status = *status | NEGATIVE;
    } else {
        *status = *status & !NEGATIVE;
    }
    proof {
        crate::flags::lemma_zn_update(*old(status), register);
    }
}

/// One step of the reduced interpreter on `program`: fetch at the program
/// counter (out of bounds ends the run), step past the opcode, and apply it
/// — load immediate, transfer to X, halt, or an unknown byte.
pub open spec fn basic_step(program: Seq<u8>, s: BasicState) -> (BasicState, BasicOutcome) {
    if s.pc as int >= program.len() {
        (s, BasicOutcome::OutOfBounds)
    } else {
        let op = program[s.pc as int];
        let s1 = BasicState { pc: s.pc.wrapping_add(1), ..s };
        if op == 0xa9 {
            if s1.pc as int >= program.len() {
                (s1, BasicOutcome::OutOfBounds)
            } else {
                let param = program[s1.pc as int];
                (
                    BasicState {
                        a: param,
                        status: zn_update(s.status, param),
                        pc: s1.pc.wrapping_add(1),
                        ..s
                    },
                    BasicOutcome::Running,
                )
            }
        } else if op == 0xaa {
            (BasicState { x: s.a, status: zn_update(s.status, s.a), ..s1 }, BasicOutcome::Running)
        } else if op == 0x00 {
            (s1, BasicOutcome::Halted)
        } else {
            (s1, BasicOutcome::IllegalOpcode(op))
        }
    }
}

/// The reduced state after `n` steps on `program`.
pub open spec fn basic_run_n(program: Seq<u8>, s: BasicState, n: nat) -> BasicState
    decreases n,
{
    if n == 0 {
        s
    } else {
        basic_step(program, basic_run_n(program, s, (n - 1) as nat)).0
    }
}

/// The state from which the reduced interpreter starts: the program counter
/// rewound to zero, registers and flags carried over.
pub open spec fn basic_start(s: BasicState) -> BasicState {
    BasicState { pc: 0, ..s }
}

/// The reduced interpreter, run on `program` from `s`, eventually reports
/// something other than `Running`.
pub open spec fn basic_halts(program: Seq<u8>, s: BasicState) -> bool {
    exists|n: nat| !((#[trigger] basic_step(program, basic_run_n(program, s, n)).1) is Running)
}

/// The reduced interpreter ran from `start`, took `n` running steps, stopped
/// on the first step that reported `r`, and left the machine in `end`.
pub open spec fn basic_halted_within(
    program: Seq<u8>,
    start: BasicState,
    end: BasicState,
    r: BasicOutcome,
    n: nat,
) -> bool {
    &&& forall|i: nat|
        i < n ==> (#[trigger] basic_step(program, basic_run_n(program, start, i)).1)
            is Running
    &&& !(r is Running)
    &&& r == basic_step(program, basic_run_n(program, start, n)).1
    &&& end == basic_run_n(program, start, n + 1)
}

/// The reduced CPU: accumulator, status byte, index register X, and the
/// program counter. Its view is the mathematical [`BasicState`].
pub struct CPU {
    pub register_a: u8,
    pub status: u8,
    pub register_x: u8,
    pub program_counter: u16,
}

impl View for CPU {
    type V = BasicState;

    open spec fn view(&self) -> BasicState {
        BasicState {
            a: self.register_a,
            x: self.register_x,
            status: self.status,
            pc: self.program_counter,
        }
    }
}

impl CPU {
    /// A powered-on reduced CPU: everything zero.
    pub fn new() -> (r: Self)
        ensures
            r@ == (BasicState { a: 0, x: 0, status: 0, pc: 0 }),
    {
        CPU { register_a: 0, status: 0, program_counter: 0, register_x: 0 }
    }

    /// Runs the program slice from index zero until a step reports something
    /// other than `Running`, and returns that terminal outcome. The run must
    /// be known to stop — every program that reaches a halt byte, an unknown
    /// byte, or the end of the slice does.
    pub fn interpret(&mut self, program: Vec<u8>) -> (r: BasicOutcome)
        requires
            basic_halts(program@, basic_start(old(self)@)),
        ensures
            exists|n: nat|
                basic_halted_within(program@, basic_start(old(self)@), final(self)@, r, n),
    {
        self.program_counter = 0;
        let ghost prog = program@;
        let ghost start = self@;
        let ghost halt_index = choose|n: nat|
            !((#[trigger] basic_step(prog, basic_run_n(prog, start, n)).1) is Running);
        let ghost mut n: nat = 0;
        loop
            invariant
                prog == program@,
                start == basic_start(old(self)@),
                self@ == basic_run_n(prog, start, n),
                n <= halt_index,
                !(basic_step(prog, basic_run_n(prog, start, halt_index)).1 is Running),
                forall|i: nat|
                    i < n ==> (#[trigger] basic_step(prog, basic_run_n(prog, start, i)).1)
                        is Running,
            decreases halt_index - n,
        {
            if program.len() <= self.program_counter as usize {
                proof {
                    assert(basic_halted_within(prog, start, self@, BasicOutcome::OutOfBounds, n));
                }
                return BasicOutcome::OutOfBounds;
            }
            let opscode = program[self.program_counter as usize];
            self.program_counter = self.program_counter.wrapping_add(1);
            match opscode {
                0xa9u8 => {
                    if program.len() <= self.program_counter as usize {
                        proof {
                            assert(basic_halted_within(
                                prog,
                                start,
                                self@,
                                BasicOutcome::OutOfBounds,
                                n,
                            ));
                        }
                        return BasicOutcome::OutOfBounds;
                    }
                    let param = program[self.program_counter as usize];
                    self.program_counter = self.program_counter.wrapping_add(1);
                    self.register_a = param;
                    update_status_flag(self.register_a, &mut self.status);
                    proof {
                        n = n + 1;
                    }
                },
                0xaau8 => {
                    self.register_x = self.register_a;
                    update_status_flag(self.register_x, &mut self.status);
                    proof {
                        n = n + 1;
                    }
                },
                0x00u8 => {
                    proof {
                        assert(basic_halted_within(prog, start, self@, BasicOutcome::Halted, n));
                    }
                    return BasicOutcome::Halted;
                },
                _ => {
                    proof {
                        assert(basic_halted_within(
                            prog,
                            start,
                            self@,
                            BasicOutcome::IllegalOpcode(opscode),
                            n,
                        ));
                    }
                    return BasicOutcome::IllegalOpcode(opscode);
                },
            }
        }
    }
}

} // verus!
