//! The CPU: registers, single-bit flags and program counter, with the
//! fetch primitive, the zero-page operand read, and the dispatch loop.
//!
//! The meaning of execution is given by the specification-level interpreter
//! [`spec_exec`]: the contract of [`CPU::exec`] says that the machine ends in
//! exactly the state that interpreter computes, so every architectural effect
//! of every instruction is pinned down.
//!
//! Two deliberate deviations from naive hardware-free-running behaviour:
//! the zero-page operand read does not advance the program counter (only
//! `fetch` consumes instruction bytes), and the cycle budget saturates at
//! zero instead of wrapping, so an instruction that straddles the end of the
//! budget still runs to completion but can never make the budget wrap around.

use vstd::prelude::*;

use crate::memory::all_zero;
use crate::memory::Memory;
use crate::memory::MEM_SIZE;

verus! {

/// Opcode of LDA with immediate addressing: load the next byte into A.
pub const INS_LDA_IM: u8 = 0xA9;

/// Opcode of LDA with zero-page addressing: the next byte is an address in
/// the first 256 bytes of memory; load the byte found there into A.
pub const INS_LDA_ZP: u8 = 0xA5;

/// The reset vector: where the program counter points after a reset.
pub const RESET_VECTOR: u16 = 0xFFFC;

/// Registers, flags and counters of the CPU. Each flag field holds a single
/// bit, 0 or 1.
#[allow(non_snake_case)]
#[derive(Clone, Copy, Debug, PartialEq, Eq, Structural)]
pub struct CPU {
    /// Address of the next byte to fetch.
    pub program_counter: u16,
    /// Offset of the stack base within the stack region.
    pub stack_pointer: u16,
    /// Accumulator.
    pub A: u8,
    /// Index register X.
    pub X: u8,
    /// Index register Y.
    pub Y: u8,
    /// Carry flag.
    pub C: u8,
    /// Zero flag.
    pub Z: u8,
    /// Interrupt-disable flag.
    pub I: u8,
    /// Decimal-mode flag.
    pub D: u8,
    /// Break flag.
    pub B: u8,
    /// Overflow flag.
    pub O: u8,
    /// Negative flag.
    pub N: u8,
}

/// How a call to `exec` ended.
#[derive(Clone, Copy, Debug, PartialEq, Eq, Structural)]
pub enum ExecOutcome {
    /// The cycle budget ran out; every opcode fetched was recognized.
    Completed,
    /// A byte that is not a known opcode was fetched: execution halted at
    /// once, whatever budget remained.
    UnknownOpcode {
        /// The unrecognized byte.
        opcode: u8,
        /// The address it was fetched from.
        address: u16,
        /// The budget left after the fetch that found it.
        remaining: u32,
    },
}

/// The program counter after consuming one byte: one more, wrapping around
/// at the top of the address space.
pub open spec fn wrap_inc(pc: u16) -> u16 {
    if pc == 0xFFFF {
        0
    } else {
        (pc + 1) as u16
    }
}

/// Budget subtraction that stops at zero instead of wrapping.
pub open spec fn sat_sub(a: u32, b: u32) -> u32 {
    if a >= b {
        (a - b) as u32
    } else {
        0
    }
}

/// A CPU after a load into the accumulator: the loaded value lands in A,
/// Z records whether it is zero, N records its top bit (set exactly when
/// the value is at least 0x80), and nothing else moves.
pub open spec fn lda_result(cpu: CPU, value: u8) -> CPU {
    CPU {
        A: value,
        Z: if value == 0 {
            1
        } else {
            0
        },
        N: if value >= 0x80 {
            1
        } else {
            0
        },
        ..cpu
    }
}

/// The state `reset` establishes, whatever state came before it.
pub open spec fn reset_cpu() -> CPU {
    CPU {
        program_counter: RESET_VECTOR,
        stack_pointer: 0x00FF,
        A: 0,
        X: 0,
        Y: 0,
        C: 0,
        Z: 0,
        I: 0,
        D: 0,
        B: 0,
        O: 0,
        N: 0,
    }
}

/// The dispatch loop at the specification level: starting from `cpu` with
/// `ticks` cycles of budget over the memory image `mem`, the final CPU and
/// the outcome. Each byte an instruction consumes costs one cycle; an
/// instruction begun is finished even if the budget saturates at zero; an
/// unrecognized opcode halts at once.
pub open spec fn spec_exec(cpu: CPU, ticks: u32, mem: Seq<u8>) -> (CPU, ExecOutcome)
    decreases ticks,
{
    if ticks == 0 {
        (cpu, ExecOutcome::Completed)
    } else {
        let opcode: u8 = mem[cpu.program_counter as int];
        let fetched: CPU = CPU { program_counter: wrap_inc(cpu.program_counter), ..cpu };
        let rem: u32 = (ticks - 1) as u32;
        if opcode == INS_LDA_IM {
            let value: u8 = mem[fetched.program_counter as int];
            let stepped: CPU = CPU {
                program_counter: wrap_inc(fetched.program_counter),
                ..fetched
            };
            spec_exec(lda_result(stepped, value), sat_sub(rem, 1), mem)
        } else if opcode == INS_LDA_ZP {
            let addr: u8 = mem[fetched.program_counter as int];
            let stepped: CPU = CPU {
                program_counter: wrap_inc(fetched.program_counter),
                ..fetched
            };
            spec_exec(lda_result(stepped, mem[addr as int]), sat_sub(rem, 2), mem)
        } else {
            (
                fetched,
                ExecOutcome::UnknownOpcode {
                    opcode,
                    address: cpu.program_counter,
                    remaining: rem,
                },
            )
        }
    }
}

impl CPU {
    /// Every flag holds a single bit.
    pub open spec fn flags_wf(&self) -> bool {
        &&& self.C <= 1
        &&& self.Z <= 1
        &&& self.I <= 1
        &&& self.D <= 1
        &&& self.B <= 1
        &&& self.O <= 1
        &&& self.N <= 1
    }

    /// A CPU with every register, flag and counter zero. This pre-reset
    /// state is not meaningful: `reset` must run before execution.
    pub fn new() -> (cpu: CPU)
        ensures
            cpu == (CPU {
                program_counter: 0,
                stack_pointer: 0,
                A: 0,
                X: 0,
                Y: 0,
                C: 0,
                Z: 0,
                I: 0,
                D: 0,
                B: 0,
                O: 0,
                N: 0,
            }),
    {
        CPU {
            program_counter: 0,
            stack_pointer: 0,
            A: 0,
            X: 0,
            Y: 0,
            C: 0,
            Z: 0,
            I: 0,
            D: 0,
            B: 0,
            O: 0,
            N: 0,
        }
    }

    /// Puts the machine into the power-on state: the program counter at the
    /// reset vector, the stack pointer at its base, registers and flags
    /// cleared, and every memory byte zeroed. The final state does not
    /// depend on the state before the call.
    pub fn reset(&mut self, memory: &mut Memory)
        requires
            old(memory).inv(),
        ensures
            *final(self) == reset_cpu(),
            final(memory).inv(),
            all_zero(final(memory)@),
    {
        self.program_counter = RESET_VECTOR;
        self.stack_pointer = 0x00FF;

        self.A = 0;
        self.X = 0;
        self.Y = 0;

        self.C = 0;
        self.Z = 0;
        self.I = 0;
        self.D = 0;
        self.B = 0;
        self.O = 0;
        self.N = 0;

        memory.reset();
    }

    /// Sets the Z and N flags from the accumulator, as every load does:
    /// Z is 1 exactly when A is zero, N is 1 exactly when bit 7 of A is
    /// set. Nothing else changes.
    pub fn lda_set_status(&mut self)
        ensures
            *final(self) == lda_result(*old(self), old(self).A),
    {
        self.Z = if self.A == 0 {
            1
        } else {
            0
        };
        let n_set: bool = (self.A & 0x80) != 0;
        proof {
            let a = self.A;
            assert((a & 0x80 != 0) == (a >= 0x80)) by (bit_vector);
        }
        self.N = if n_set {
            1
        } else {
            0
        };
    }

    /// Consumes one instruction byte: returns the byte under the program
    /// counter and advances the counter by one, wrapping at the top of the
    /// address space. This is the sole way instruction bytes are consumed,
    /// for opcodes and operands alike.
    pub fn fetch(&mut self, memory: &Memory) -> (data: u8)
        requires
            memory.inv(),
        ensures
            data == memory@[old(self).program_counter as int],
            *final(self) == (CPU {
                program_counter: wrap_inc(old(self).program_counter),
                ..*old(self)
            }),
    {
        let data: u8 = memory.read(self.program_counter);
        self.program_counter = if self.program_counter == 0xFFFF {
            0
        } else {
            self.program_counter + 1
        };
        data
    }

    /// Reads the byte at a zero-page address. A plain memory read: it does
    /// not move the program counter, since only `fetch` consumes
    /// instruction bytes.
    pub fn read_byte(&mut self, byte: u8, memory: &Memory) -> (data: u8)
        requires
            memory.inv(),
        ensures
            data == memory@[byte as int],
            *final(self) == *old(self),
    {
        memory.read(byte as u16)
    }

    /// The dispatch loop. Repeatedly fetches an opcode (one cycle) and
    /// executes it: LDA immediate fetches its operand (one more cycle) and
    /// loads it into A; LDA zero page fetches a zero-page address (one
    /// cycle) and reads the byte there (one more cycle) into A; both then
    /// set Z and N from A. An unrecognized opcode halts at once and is
    /// reported in the outcome. The loop stops when the budget reaches
    /// zero; an instruction already begun runs to completion, the budget
    /// saturating at zero rather than wrapping. The final state and the
    /// outcome are exactly those of the specification interpreter.
    pub fn exec(&mut self, ticks: u32, memory: &Memory) -> (outcome: ExecOutcome)
        requires
            memory.inv(),
        ensures
            *final(self) == spec_exec(*old(self), ticks, memory@).0,
            outcome == spec_exec(*old(self), ticks, memory@).1,
    {
        let mut remaining: u32 = ticks;
        while remaining > 0
            invariant
                memory.inv(),
                spec_exec(*old(self), ticks, memory@) == spec_exec(*self, remaining, memory@),
            decreases remaining,
        {
            let ghost pre: CPU = *self;
            let ghost rem0: u32 = remaining;
            let pc: u16 = self.program_counter;
            let opcode: u8 = self.fetch(memory);
            remaining = remaining - 1;
            if opcode == INS_LDA_IM {
                let value: u8 = self.fetch(memory);
                remaining = if remaining >= 1 {
                    remaining - 1
                } else {
                    0
                };
                self.A = value;
                self.lda_set_status();
            } else if opcode == INS_LDA_ZP {
                let addr: u8 = self.fetch(memory);
                let value: u8 = self.read_byte(addr, memory);
                remaining = if remaining >= 2 {
                    remaining - 2
                } else {
                    0
                };
                self.A = value;
                self.lda_set_status();
            } else {
                return ExecOutcome::UnknownOpcode { opcode, address: pc, remaining };
            }
        }
        ExecOutcome::Completed
    }
}

/// An unrecognized opcode halts execution at once: whatever budget remains,
/// only the opcode fetch happens, so the program counter moves by one and
/// every register and flag keeps its value; the outcome reports the opcode,
/// the address it came from, and a budget one cycle smaller.
pub proof fn lemma_unknown_opcode_halts(cpu: CPU, ticks: u32, mem: Seq<u8>)
    requires
        ticks > 0,
        mem[cpu.program_counter as int] != INS_LDA_IM,
        mem[cpu.program_counter as int] != INS_LDA_ZP,
    ensures
        spec_exec(cpu, ticks, mem) == (
            (CPU { program_counter: wrap_inc(cpu.program_counter), ..cpu }),
            ExecOutcome::UnknownOpcode {
                opcode: mem[cpu.program_counter as int],
                address: cpu.program_counter,
                remaining: (ticks - 1) as u32,
            },
        ),
{
}

/// Resetting twice leaves exactly the state one reset leaves: the state
/// `reset` establishes — CPU and memory both — does not depend on the state
/// it starts from, so a second reset changes nothing observable.
pub proof fn lemma_reset_idempotent(
    cpu_once: CPU,
    mem_once: Seq<u8>,
    cpu_again: CPU,
    mem_again: Seq<u8>,
)
    requires
        cpu_once == reset_cpu(),
        mem_once.len() == MEM_SIZE,
        all_zero(mem_once),
        cpu_again == reset_cpu(),
        mem_again.len() == MEM_SIZE,
        all_zero(mem_again),
    ensures
        cpu_again == cpu_once,
        mem_again == mem_once,
{
    assert(mem_again =~= mem_once);
}

/// Load instructions touch only the accumulator, the Z and N flags and the
/// program counter: however long it runs, the dispatch loop returns the
/// stack pointer, the index registers and the other five flags exactly as
/// they went in.
pub proof fn lemma_exec_touches_only_load_state(cpu: CPU, ticks: u32, mem: Seq<u8>)
    ensures
        ({
            let after = spec_exec(cpu, ticks, mem).0;
            &&& after.stack_pointer == cpu.stack_pointer
            &&& after.X == cpu.X
            &&& after.Y == cpu.Y
            &&& after.C == cpu.C
            &&& after.I == cpu.I
            &&& after.D == cpu.D
            &&& after.B == cpu.B
            &&& after.O == cpu.O
        }),
    decreases ticks,
{
    if ticks != 0 {
        let opcode: u8 = mem[cpu.program_counter as int];
        let fetched: CPU = CPU { program_counter: wrap_inc(cpu.program_counter), ..cpu };
        let rem: u32 = (ticks - 1) as u32;
        if opcode == INS_LDA_IM {
            let value: u8 = mem[fetched.program_counter as int];
            let stepped: CPU = CPU {
                program_counter: wrap_inc(fetched.program_counter),
                ..fetched
            };
            lemma_exec_touches_only_load_state(lda_result(stepped, value), sat_sub(rem, 1), mem);
        } else if opcode == INS_LDA_ZP {
            let addr: u8 = mem[fetched.program_counter as int];
            let stepped: CPU = CPU {
                program_counter: wrap_inc(fetched.program_counter),
                ..fetched
            };
            lemma_exec_touches_only_load_state(
                lda_result(stepped, mem[addr as int]),
                sat_sub(rem, 2),
                mem,
            );
        }
    }
}

/// The flag invariant survives execution: if every flag is a single bit
/// going in, every flag is a single bit coming out, since loads write only
/// 0 or 1 into Z and N and leave the other flags alone.
pub proof fn lemma_exec_preserves_flags_wf(cpu: CPU, ticks: u32, mem: Seq<u8>)
    requires
        cpu.flags_wf(),
    ensures
        spec_exec(cpu, ticks, mem).0.flags_wf(),
    decreases ticks,
{
    if ticks != 0 {
        let opcode: u8 = mem[cpu.program_counter as int];
        let fetched: CPU = CPU { program_counter: wrap_inc(cpu.program_counter), ..cpu };
        let rem: u32 = (ticks - 1) as u32;
        if opcode == INS_LDA_IM {
            let value: u8 = mem[fetched.program_counter as int];
            let stepped: CPU = CPU {
                program_counter: wrap_inc(fetched.program_counter),
                ..fetched
            };
            lemma_exec_preserves_flags_wf(lda_result(stepped, value), sat_sub(rem, 1), mem);
        } else if opcode == INS_LDA_ZP {
            let addr: u8 = mem[fetched.program_counter as int];
            let stepped: CPU = CPU {
                program_counter: wrap_inc(fetched.program_counter),
                ..fetched
            };
            lemma_exec_preserves_flags_wf(lda_result(stepped, mem[addr as int]), sat_sub(rem, 2), mem);
        }
    }
}

} // verus!
