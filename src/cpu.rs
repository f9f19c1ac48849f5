pub mod instructions;
pub mod registers;

use std::collections::HashSet;
use vstd::prelude::*;

use crate::cpu::instructions::block_0::{
    block_0_spec, jr_cc_imm8_spec, jr_target, JR_C_IMM8_OPCODE, JR_IMM8_OPCODE, JR_NC_IMM8_OPCODE,
    JR_NZ_IMM8_OPCODE, JR_Z_IMM8_OPCODE,
};
use crate::cpu::instructions::{cond_holds, execute, execute_spec, r8_field};
use crate::error::Error;
use crate::mmu::{read8, Memory, MMU};
use registers::{pair, Registers};

verus! {

// The two high bits of an opcode select its block.
pub const BLOCK_0: u8 = 0b00;
pub const BLOCK_1: u8 = 0b01;
pub const BLOCK_2: u8 = 0b10;
pub const BLOCK_3: u8 = 0b11;

/// What an instruction leaves behind: the new core and address space, or the
/// error that stopped it together with the core and address space as the
/// instruction left them at that point.
pub type Step = Result<(CPU, Memory), (Error, CPU, Memory)>;

/// The processing core: the register file and the interrupt master-enable
/// flag.
#[derive(Debug, Clone, Copy, PartialEq, Eq, Structural)]
pub struct CPU {
    pub registers: Registers,
    pub ime: bool,
}

/// `r`, with the core `s` and memory `m` after the call, is what `expected`
/// describes, on success and on failure alike.
pub open spec fn outcome<S>(
    r: Result<(), Error>,
    s: S,
    m: Memory,
    expected: Result<(S, Memory), (Error, S, Memory)>,
) -> bool {
    match expected {
        Ok((s2, m2)) => r is Ok && s == s2 && m == m2,
        Err((e, s2, m2)) => r == Err::<(), Error>(e) && s == s2 && m == m2,
    }
}

/// `pc + n`, wrapping around the 16-bit address space.
pub open spec fn pc_plus(pc: u16, n: int) -> u16 {
    ((pc + n) % 0x10000) as u16
}

impl CPU {
    pub open spec fn with_registers(self, regs: Registers) -> CPU {
        CPU { registers: regs, ..self }
    }

    pub open spec fn with_pc(self, pc: u16) -> CPU {
        self.with_registers(Registers { pc, ..self.registers })
    }
}

/// Fetching the byte at `pc` and advancing `pc` past it.
pub open spec fn fetch8(cpu: CPU, mem: Memory) -> Result<(u8, CPU), Error> {
    match read8(mem, cpu.registers.pc as int) {
        Ok(v) => Ok((v, cpu.with_pc(pc_plus(cpu.registers.pc, 1)))),
        Err(e) => Err(e),
    }
}

/// Fetching the little-endian 16-bit operand at `pc` and `pc + 1` and
/// advancing `pc` past it.
pub open spec fn fetch16(cpu: CPU, mem: Memory) -> Result<(u16, CPU), Error> {
    let pc = cpu.registers.pc;
    match read8(mem, pc as int) {
        Err(e) => Err(e),
        Ok(lo) => match read8(mem, pc_plus(pc, 1) as int) {
            Err(e) => Err(e),
            Ok(hi) => Ok((pair(hi, lo), cpu.with_pc(pc_plus(pc, 2)))),
        },
    }
}

/// One instruction: fetch the opcode at `pc`, then execute it.
pub open spec fn step_spec(cpu: CPU, mem: Memory) -> Step {
    match fetch8(cpu, mem) {
        Err(e) => Err((e, cpu, mem)),
        Ok((opcode, c)) => execute_spec(opcode, c, mem),
    }
}

/// Running at most `fuel` more instructions, `done` having run: stops after an
/// instruction that leaves `pc` on one of `breakpoints`, and at the first
/// failure, with the state that the failing instruction left. The result
/// counts the instructions run.
pub open spec fn run_spec(cpu: CPU, mem: Memory, breakpoints: Set<u16>, fuel: nat, done: nat) -> Result<
    (CPU, Memory, nat),
    (Error, CPU, Memory),
>
    decreases fuel,
{
    if fuel == 0 {
        Ok((cpu, mem, done))
    } else {
        match step_spec(cpu, mem) {
            Err(x) => Err(x),
            Ok((c, m)) => if breakpoints.contains(c.registers.pc) {
                Ok((c, m, done + 1))
            } else {
                run_spec(c, m, breakpoints, (fuel - 1) as nat, done + 1)
            },
        }
    }
}

impl CPU {
    pub open spec fn new_spec() -> CPU {
        CPU { registers: Registers::new_spec(), ime: false }
    }

    /// The core at power-on: registers as `Registers::new` gives them and
    /// interrupts disabled.
    pub fn new() -> (r: Self)
        ensures
            r == Self::new_spec(),
    {
        CPU { registers: Registers::new(), ime: false }
    }

    /// Fetches the byte at `pc` and advances `pc` past it.
    pub fn fetch_next_word(&mut self, mmu: &MMU) -> (r: Result<u8, Error>)
        requires
            mmu.wf(),
        ensures
            match fetch8(*old(self), mmu@) {
                Ok((v, c)) => r == Ok::<u8, Error>(v) && *final(self) == c,
                Err(e) => r == Err::<u8, Error>(e) && *final(self) == *old(self),
            },
    {
        let word = mmu.get_word(self.registers.pc as usize)?;
        self.registers.pc = if self.registers.pc == 0xFFFF {
            0
        } else {
            self.registers.pc + 1
        };
        Ok(word)
    }

    /// Fetches a little-endian 16-bit operand and advances `pc` past it.
    pub fn fetch_next_dword(&mut self, mmu: &MMU) -> (r: Result<u16, Error>)
        requires
            mmu.wf(),
        ensures
            match fetch16(*old(self), mmu@) {
                Ok((v, c)) => r == Ok::<u16, Error>(v) && *final(self) == c,
                Err(e) => r == Err::<u16, Error>(e) && *final(self) == *old(self),
            },
    {
        let pc = self.registers.pc;
        let next = if pc == 0xFFFF {
            0
        } else {
            pc + 1
        };
        let lo = mmu.get_word(pc as usize)?;
        let hi = mmu.get_word(next as usize)?;
        self.registers.pc = if pc >= 0xFFFE {
            pc - 0xFFFE
        } else {
            pc + 2
        };
        Ok(hi as u16 * 256 + lo as u16)
    }

    /// Fetches, decodes and executes one instruction.
    pub fn step(&mut self, mmu: &mut MMU) -> (r: Result<(), Error>)
        requires
            old(mmu).wf(),
        ensures
            final(mmu).wf(),
            outcome(r, *final(self), final(mmu)@, step_spec(*old(self), old(mmu)@)),
    {
        let opcode = self.fetch_next_word(mmu)?;
        execute(opcode, self, mmu)
    }

    /// Steps until an instruction leaves `pc` on one of `breakpoints`, an
    /// instruction fails, or `max_steps` instructions have run; returns the
    /// number of instructions run. After a failure no further instruction
    /// runs: the core and memory are as the failing instruction left them.
    pub fn run(&mut self, mmu: &mut MMU, breakpoints: &HashSet<u16>, max_steps: usize) -> (r: Result<
        usize,
        Error,
    >)
        requires
            old(mmu).wf(),
        ensures
            final(mmu).wf(),
            match run_spec(*old(self), old(mmu)@, breakpoints@, max_steps as nat, 0) {
                Ok((c, m, n)) => r == Ok::<usize, Error>(n as usize) && *final(self) == c
                    && final(mmu)@ == m,
                Err((e, c, m)) => r == Err::<usize, Error>(e) && *final(self) == c && final(mmu)@
                    == m,
            },
    {
        broadcast use vstd::std_specs::hash::group_hash_axioms;

        let mut steps: usize = 0;
        while steps < max_steps
            invariant
                mmu.wf(),
                steps <= max_steps,
                run_spec(*self, mmu@, breakpoints@, (max_steps - steps) as nat, steps as nat)
                    == run_spec(*old(self), old(mmu)@, breakpoints@, max_steps as nat, 0),
            decreases max_steps - steps,
        {
            self.step(mmu)?;
            steps = steps + 1;
            if breakpoints.contains(&self.registers.pc) {
                return Ok(steps);
            }
        }
        Ok(steps)
    }
}

/// Two single-byte advances make one two-byte advance.
proof fn lemma_pc_plus_twice(pc: u16)
    ensures
        pc_plus(pc_plus(pc, 1), 1) == pc_plus(pc, 2),
{
    if pc < 0xFFFE {
        assert(pc_plus(pc, 1) == pc + 1);
        assert(pc_plus(pc, 2) == pc + 2);
        assert(pc_plus((pc + 1) as u16, 1) == pc + 2);
    } else if pc == 0xFFFE {
        assert(pc_plus(pc, 1) == 0xFFFF);
        assert(pc_plus(pc, 2) == 0);
        assert(pc_plus(0xFFFF, 1) == 0);
    } else {
        assert(pc_plus(pc, 1) == 0);
        assert(pc_plus(pc, 2) == 1);
        assert(pc_plus(0, 1) == 1);
    }
}

/// A relative jump always consumes its displacement byte: `pc` ends two past
/// the opcode, then moves by the displacement only when the condition holds
/// (always for the unconditional form).
pub proof fn lemma_relative_jump(cpu: CPU, mem: Memory)
    requires
        mem.contains_key(cpu.registers.pc as int),
        mem.contains_key(pc_plus(cpu.registers.pc, 1) as int),
        ({
            let opcode = mem[cpu.registers.pc as int];
            opcode == JR_IMM8_OPCODE || opcode == JR_NZ_IMM8_OPCODE || opcode == JR_Z_IMM8_OPCODE
                || opcode == JR_NC_IMM8_OPCODE || opcode == JR_C_IMM8_OPCODE
        }),
    ensures
        ({
            let opcode = mem[cpu.registers.pc as int];
            let d = mem[pc_plus(cpu.registers.pc, 1) as int];
            let after = pc_plus(cpu.registers.pc, 2);
            let taken = opcode == JR_IMM8_OPCODE || cond_holds(cpu.registers, r8_field(opcode) % 4);
            step_spec(cpu, mem) == Step::Ok(
                (cpu.with_pc(if taken { jr_target(after, d) } else { after }), mem),
            )
        }),
{
    let pc = cpu.registers.pc;
    let opcode = mem[pc as int];
    let c = cpu.with_pc(pc_plus(pc, 1));
    let taken = opcode == JR_IMM8_OPCODE || cond_holds(cpu.registers, r8_field(opcode) % 4);
    assert(fetch8(cpu, mem) == Ok::<(u8, CPU), Error>((opcode, c)));
    assert(opcode < 0x40);
    assert(execute_spec(opcode, c, mem) == block_0_spec(opcode, c, mem));
    reveal(block_0_spec);
    if opcode == JR_IMM8_OPCODE {
        assert(block_0_spec(opcode, c, mem) == jr_cc_imm8_spec(c, mem, true));
    } else if opcode == JR_NZ_IMM8_OPCODE {
        assert(block_0_spec(opcode, c, mem) == jr_cc_imm8_spec(c, mem, !cpu.registers.zero));
    } else if opcode == JR_Z_IMM8_OPCODE {
        assert(block_0_spec(opcode, c, mem) == jr_cc_imm8_spec(c, mem, cpu.registers.zero));
    } else if opcode == JR_NC_IMM8_OPCODE {
        assert(block_0_spec(opcode, c, mem) == jr_cc_imm8_spec(c, mem, !cpu.registers.carry));
    } else {
        assert(block_0_spec(opcode, c, mem) == jr_cc_imm8_spec(c, mem, cpu.registers.carry));
    }
    lemma_pc_plus_twice(pc);
}

} // verus!
