use std::collections::HashSet;
use vstd::prelude::*;

use crate::cpu::instructions::{block_0, block_3, execute_spec};
use crate::cpu::{outcome, pc_plus, run_spec, step_spec, Step, CPU};
use crate::error::Error;
use crate::gameboy::Gameboy;
use crate::mmu::Memory;

verus! {

/// Bytes per line of a memory dump.
pub const RAM_DUMP_STEP: usize = 16;

/// The prefix byte of the secondary table.
pub const PREFIXED_OPCODE: u8 = 0xCB;

/// Length in bytes of the instruction whose first byte is `opcode`, as the
/// opcode layout fixes it (the prefix byte counts for prefixed instructions).
pub open spec fn instruction_length(opcode: u8) -> nat {
    if opcode == PREFIXED_OPCODE {
        2
    } else if opcode / 64 == 0 {
        if opcode == 0x08 || opcode % 16 == 1 {
            3
        } else if opcode % 8 == 6 || opcode == 0x10 || opcode == 0x18 || (opcode >= 0x20 && opcode
            % 8 == 0) {
            2
        } else {
            1
        }
    } else if opcode / 64 == 3 {
        if (opcode < 0xE0 && (opcode % 8 == 2 || opcode % 8 == 4)) || opcode == 0xC3 || opcode
            == 0xCD || opcode == 0xEA || opcode == 0xFA {
            3
        } else if opcode % 8 == 6 || opcode == 0xE0 || opcode == 0xF0 || opcode == 0xE8 || opcode
            == 0xF8 {
            2
        } else {
            1
        }
    } else {
        1
    }
}

/// Whether `opcode` may move `pc` other than past itself: the relative and
/// absolute jumps, calls, returns and restarts.
pub open spec fn is_control_transfer(opcode: u8) -> bool {
    ||| opcode == 0x18
    ||| (opcode / 64 == 0 && opcode >= 0x20 && opcode % 8 == 0)
    ||| (opcode / 64 == 3 && opcode < 0xE0 && (opcode % 8 == 0 || opcode % 8 == 2 || opcode % 8
        == 4))
    ||| (opcode / 64 == 3 && opcode % 8 == 7)
    ||| opcode == 0xC9 || opcode == 0xD9 || opcode == 0xC3 || opcode == 0xE9 || opcode == 0xCD
}

/// `s` succeeds with `pc` at `pc_plus(pc, n)`.
pub open spec fn lands_at(s: Step, pc: u16, n: int) -> bool {
    s matches Ok((c2, m)) ==> c2.registers.pc == pc_plus(pc, n)
}

proof fn lemma_block_0_length(opcode: u8, cpu: CPU, mem: Memory)
    requires
        opcode / 64 == 0,
        !is_control_transfer(opcode),
    ensures
        lands_at(
            block_0::block_0_spec(opcode, cpu, mem),
            cpu.registers.pc,
            instruction_length(opcode) - 1,
        ),
{
    reveal(block_0::block_0_spec);
    let pc = cpu.registers.pc;
    assert(pc_plus(pc, 0) == pc);
    if opcode == 0x08 || opcode % 16 == 1 {
        assert(instruction_length(opcode) == 3);
    } else if opcode % 8 == 6 {
        assert(instruction_length(opcode) == 2);
    } else {
        assert(instruction_length(opcode) == 1 || opcode == 0x10);
    }
}

proof fn lemma_block_3_length(opcode: u8, cpu: CPU, mem: Memory)
    requires
        opcode / 64 == 3,
        !is_control_transfer(opcode),
    ensures
        lands_at(
            block_3::block_3_spec(opcode, cpu, mem),
            cpu.registers.pc,
            instruction_length(opcode) - 1,
        ),
{
    reveal(block_3::block_3_spec);
    let pc = cpu.registers.pc;
    assert(pc_plus(pc, 0) == pc);
    if opcode % 8 == 6 {
        assert(instruction_length(opcode) == 2);
        assert(block_3::block_3_spec(opcode, cpu, mem) == block_3::alu_imm8_spec(opcode, cpu, mem));
    } else if opcode == 0xCB {
        assert(block_3::block_3_spec(opcode, cpu, mem) == block_3::prefix_step_spec(cpu, mem));
    } else if opcode == 0xE0 || opcode == 0xF0 {
        assert(instruction_length(opcode) == 2);
    } else if opcode == 0xE8 || opcode == 0xF8 {
        assert(instruction_length(opcode) == 2);
    } else if opcode == 0xEA || opcode == 0xFA {
        assert(instruction_length(opcode) == 3);
    } else {
        assert(instruction_length(opcode) == 1);
    }
}

/// The length table agrees with the decoder: an instruction that is no jump,
/// call, return or restart and that succeeds leaves `pc` just past its last
/// byte (`pc` already stands past the opcode when it executes).
pub proof fn lemma_length_matches_decoder(opcode: u8, cpu: CPU, mem: Memory)
    requires
        !is_control_transfer(opcode),
    ensures
        lands_at(execute_spec(opcode, cpu, mem), cpu.registers.pc, instruction_length(opcode) - 1),
{
    assert(pc_plus(cpu.registers.pc, 0) == cpu.registers.pc);
    if opcode / 64 == 0 {
        lemma_block_0_length(opcode, cpu, mem);
    } else if opcode / 64 == 3 {
        lemma_block_3_length(opcode, cpu, mem);
    }
}

/// Whether `starts` lists the instructions of `rom` read one after another
/// from offset 0: each starts where the one before ends, each starts inside
/// `rom`, and the last one reaches its end.
pub open spec fn walks(rom: Seq<u8>, starts: Seq<usize>) -> bool {
    &&& (starts.len() > 0 <==> rom.len() > 0)
    &&& starts.len() > 0 ==> starts[0] == 0
    &&& forall|k: int| 0 <= k < starts.len() ==> #[trigger] starts[k] < rom.len()
    &&& forall|k: int|
        0 <= k < starts.len() - 1 ==> #[trigger] starts[k + 1] == starts[k] + instruction_length(
            rom[starts[k] as int],
        )
    &&& starts.len() > 0 ==> starts.last() + instruction_length(rom[starts.last() as int])
        >= rom.len()
}

/// The byte that a memory dump shows for `b`: itself when it is a visible
/// ASCII character, '.' otherwise.
pub open spec fn dump_char(b: u8) -> u8 {
    if 0x21 <= b <= 0x7E {
        b
    } else {
        0x2E
    }
}

/// Length of the instruction whose first byte is `opcode`.
pub fn instruction_size(opcode: u8) -> (r: usize)
    ensures
        r == instruction_length(opcode),
{
    if opcode == PREFIXED_OPCODE {
        2
    } else if opcode / 64 == 0 {
        if opcode == 0x08 || opcode % 16 == 1 {
            3
        } else if opcode % 8 == 6 || opcode == 0x10 || opcode == 0x18 || (opcode >= 0x20 && opcode
            % 8 == 0) {
            2
        } else {
            1
        }
    } else if opcode / 64 == 3 {
        if (opcode < 0xE0 && (opcode % 8 == 2 || opcode % 8 == 4)) || opcode == 0xC3 || opcode
            == 0xCD || opcode == 0xEA || opcode == 0xFA {
            3
        } else if opcode % 8 == 6 || opcode == 0xE0 || opcode == 0xF0 || opcode == 0xE8 || opcode
            == 0xF8 {
            2
        } else {
            1
        }
    } else {
        1
    }
}

/// The offsets at which the instructions of `rom` start, read one after
/// another from offset 0.
pub fn create_instructions_list(rom: &Vec<u8>) -> (r: Vec<usize>)
    ensures
        walks(rom@, r@),
{
    let mut r: Vec<usize> = Vec::new();
    if rom.len() == 0 {
        return r;
    }
    let mut i: usize = 0;
    loop
        invariant
            i < rom@.len(),
            r@.len() == 0 ==> i == 0,
            r@.len() > 0 ==> r@[0] == 0,
            r@.len() > 0 ==> r@.last() + instruction_length(rom@[r@.last() as int]) == i,
            forall|k: int| 0 <= k < r@.len() ==> #[trigger] r@[k] < i,
            forall|k: int|
                0 <= k < r@.len() - 1 ==> #[trigger] r@[k + 1] == r@[k] + instruction_length(
                    rom@[r@[k] as int],
                ),
        decreases rom@.len() - i,
    {
        r.push(i);
        let size = instruction_size(rom[i]);
        if size >= rom.len() - i {
            return r;
        }
        i = i + size;
    }
}

/// The byte shown for `b` in a memory dump.
pub fn printable(b: u8) -> (r: u8)
    ensures
        r == dump_char(b),
{
    if 0x21 <= b && b <= 0x7E {
        b
    } else {
        0x2E
    }
}

/// Whether `line` holds the `RAM_DUMP_STEP` bytes of `mem` from `address`.
pub open spec fn dump_of(mem: Memory, address: int, line: Seq<u8>) -> bool {
    &&& line.len() == RAM_DUMP_STEP
    &&& forall|k: int| 0 <= k < RAM_DUMP_STEP ==> #[trigger] line[k] == mem[address + k]
}

/// Whether a byte store backs each of the `RAM_DUMP_STEP` addresses from
/// `address`.
pub open spec fn dump_available(mem: Memory, address: int) -> bool {
    forall|k: int| 0 <= k < RAM_DUMP_STEP ==> #[trigger] mem.contains_key(address + k)
}

/// The value of an ASCII hexadecimal digit, or -1 for any other byte.
pub open spec fn hex_digit(c: u8) -> int {
    if 0x30 <= c <= 0x39 {
        c - 0x30
    } else if 0x61 <= c <= 0x66 {
        c - 0x61 + 10
    } else if 0x41 <= c <= 0x46 {
        c - 0x41 + 10
    } else {
        -1
    }
}

/// The opcode that a key of an opcode table names: "0x" (or "0X") followed
/// by two hexadecimal digits.
pub open spec fn opcode_key_value(key: Seq<u8>) -> Option<u8> {
    if key.len() == 4 && key[0] == 0x30 && (key[1] == 0x78 || key[1] == 0x58) && hex_digit(key[2])
        >= 0 && hex_digit(key[3]) >= 0 {
        Some((hex_digit(key[2]) * 16 + hex_digit(key[3])) as u8)
    } else {
        None
    }
}

fn hex_digit_value(c: u8) -> (r: Option<u8>)
    ensures
        hex_digit(c) >= 0 ==> r == Some(hex_digit(c) as u8),
        hex_digit(c) < 0 ==> r is None,
{
    if 0x30 <= c && c <= 0x39 {
        Some(c - 0x30)
    } else if 0x61 <= c && c <= 0x66 {
        Some(c - 0x61 + 10)
    } else if 0x41 <= c && c <= 0x46 {
        Some(c - 0x41 + 10)
    } else {
        None
    }
}

/// Reads a key of an opcode table, such as "0x3E".
pub fn parse_opcode_key(key: &[u8]) -> (r: Option<u8>)
    ensures
        r == opcode_key_value(key@),
{
    if key.len() != 4 || key[0] != 0x30 || (key[1] != 0x78 && key[1] != 0x58) {
        return None;
    }
    match (hex_digit_value(key[2]), hex_digit_value(key[3])) {
        (Some(hi), Some(lo)) => Some(hi * 16 + lo),
        _ => None,
    }
}

/// Whether the machine runs on its own or waits for the user.
#[derive(Debug, Clone, Copy, PartialEq, Eq, Structural)]
pub enum RunStatus {
    Waiting,
    Running,
}

/// What a debugging front end holds: the machine, the user's breakpoints and
/// whether it is running.
#[derive(Debug)]
pub struct GameData {
    pub gameboy: Gameboy,
    pub breakpoints: HashSet<u16>,
    pub run_status: RunStatus,
}

impl GameData {
    /// A waiting session over `gameboy` with no breakpoint.
    pub fn new(gameboy: Gameboy) -> (r: Self)
        ensures
            r.gameboy == gameboy,
            r.breakpoints@ == Set::<u16>::empty(),
            r.run_status == RunStatus::Waiting,
    {
        GameData { gameboy, breakpoints: HashSet::new(), run_status: RunStatus::Waiting }
    }

    /// The `RAM_DUMP_STEP` bytes from `address`, or `None` when an address of
    /// the line is unbacked.
    pub fn ram_line(&self, address: usize) -> (r: Option<Vec<u8>>)
        requires
            self.gameboy.wf(),
            address <= 0xFFFF,
        ensures
            dump_available(self.gameboy.mmu@, address as int) <==> r is Some,
            r matches Some(line) ==> dump_of(self.gameboy.mmu@, address as int, line@),
    {
        let mut line: Vec<u8> = Vec::with_capacity(RAM_DUMP_STEP);
        let mut k: usize = 0;
        while k < RAM_DUMP_STEP
            invariant
                self.gameboy.wf(),
                address <= 0xFFFF,
                k <= RAM_DUMP_STEP,
                line@.len() == k,
                forall|j: int| 0 <= j < k ==> #[trigger] self.gameboy.mmu@.contains_key(address + j),
                forall|j: int| 0 <= j < k ==> #[trigger] line@[j] == self.gameboy.mmu@[address + j],
            decreases RAM_DUMP_STEP - k,
        {
            match self.gameboy.mmu.get_word(address + k) {
                Ok(b) => line.push(b),
                Err(_) => {
                    assert(!self.gameboy.mmu@.contains_key(address + k));
                    return None;
                },
            }
            k = k + 1;
        }
        Some(line)
    }

    /// Sets a breakpoint at `pc`, or clears the one that is there.
    pub fn toggle_breakpoint(&mut self, pc: u16)
        ensures
            final(self).breakpoints@ == (if old(self).breakpoints@.contains(pc) {
                old(self).breakpoints@.remove(pc)
            } else {
                old(self).breakpoints@.insert(pc)
            }),
            final(self).gameboy == old(self).gameboy,
            final(self).run_status == old(self).run_status,
    {
        broadcast use vstd::std_specs::hash::group_hash_axioms;

        if self.breakpoints.contains(&pc) {
            self.breakpoints.remove(&pc);
        } else {
            self.breakpoints.insert(pc);
        }
    }

    /// Lets the machine run.
    pub fn start(&mut self)
        ensures
            final(self).run_status == RunStatus::Running,
            final(self).gameboy == old(self).gameboy,
            final(self).breakpoints@ == old(self).breakpoints@,
    {
        self.run_status = RunStatus::Running;
    }

    /// Executes one instruction, whatever the status.
    pub fn step_once(&mut self) -> (r: Result<(), Error>)
        requires
            old(self).gameboy.wf(),
        ensures
            final(self).gameboy.wf(),
            final(self).breakpoints@ == old(self).breakpoints@,
            final(self).run_status == old(self).run_status,
            outcome(
                r,
                final(self).gameboy.cpu,
                final(self).gameboy.mmu@,
                step_spec(old(self).gameboy.cpu, old(self).gameboy.mmu@),
            ),
    {
        self.gameboy.step()
    }

    /// One round of a running session: at most `max_steps` instructions,
    /// stopping at a breakpoint. Reaching a breakpoint or failing puts the
    /// session back to waiting; a waiting session does nothing.
    pub fn update(&mut self, max_steps: usize) -> (r: Result<(), Error>)
        requires
            old(self).gameboy.wf(),
        ensures
            final(self).gameboy.wf(),
            final(self).breakpoints@ == old(self).breakpoints@,
            old(self).run_status == RunStatus::Waiting ==> r is Ok && final(self).gameboy.cpu
                == old(self).gameboy.cpu && final(self).gameboy.mmu@ == old(self).gameboy.mmu@
                && final(self).run_status == RunStatus::Waiting,
            old(self).run_status == RunStatus::Running ==> match run_spec(
                old(self).gameboy.cpu,
                old(self).gameboy.mmu@,
                old(self).breakpoints@,
                max_steps as nat,
                0,
            ) {
                Ok((c, m, n)) => r is Ok && final(self).gameboy.cpu == c && final(self).gameboy.mmu@
                    == m && final(self).run_status == (if old(self).breakpoints@.contains(
                    c.registers.pc,
                ) {
                    RunStatus::Waiting
                } else {
                    RunStatus::Running
                }),
                Err((e, c, m)) => r == Err::<(), Error>(e) && final(self).gameboy.cpu == c
                    && final(self).gameboy.mmu@ == m && final(self).run_status == RunStatus::Waiting,
            },
    {
        broadcast use vstd::std_specs::hash::group_hash_axioms;

        if self.run_status == RunStatus::Waiting {
            return Ok(());
        }
        match self.gameboy.run(&self.breakpoints, max_steps) {
            Ok(_) => {
                if self.breakpoints.contains(&self.gameboy.cpu.registers.pc) {
                    self.run_status = RunStatus::Waiting;
                }
                Ok(())
            },
            Err(e) => {
                self.run_status = RunStatus::Waiting;
                Err(e)
            },
        }
    }
}

} // verus!
