use std::collections::HashSet;
use vstd::prelude::*;

use crate::cartridge::Cartridge;
use crate::cpu::{outcome, run_spec, step_spec, CPU};
use crate::error::Error;
use crate::lcd::LCD;
use crate::mmu::MMU;

verus! {

/// The whole machine: core, address space and screen.
#[derive(Debug)]
pub struct Gameboy {
    pub cpu: CPU,
    pub mmu: MMU,
    pub lcd: LCD,
}

impl Gameboy {
    pub open spec fn wf(&self) -> bool {
        self.mmu.wf() && self.lcd.wf()
    }

    /// A machine at power-on over `cartridge`, in base mode.
    pub fn new(cartridge: Cartridge) -> (r: Self)
        ensures
            r.wf(),
            r.cpu == CPU::new_spec(),
            r.mmu.cartridge_len() == cartridge.mbc@.len(),
            forall|a: int|
                0 <= a < cartridge.mbc@.len() && a <= crate::mmu::ROM_END ==> r.mmu@[a]
                    == cartridge.mbc@[a],
            forall|a: int| #[trigger] r.mmu.backs(a) && a > crate::mmu::ROM_END ==> r.mmu@[a] == 0,
    {
        Gameboy { mmu: MMU::new(cartridge.mbc, false), cpu: CPU::new(), lcd: LCD::new() }
    }

    /// Executes one instruction.
    pub fn step(&mut self) -> (r: Result<(), Error>)
        requires
            old(self).wf(),
        ensures
            final(self).wf(),
            final(self).lcd == old(self).lcd,
            outcome(r, final(self).cpu, final(self).mmu@, step_spec(old(self).cpu, old(self).mmu@)),
    {
        self.cpu.step(&mut self.mmu)
    }

    /// Runs until `pc` reaches one of `breakpoints`, an instruction fails, or
    /// `max_steps` instructions have run; returns the number run. A failure
    /// leaves the machine as the failing instruction left it.
    pub fn run(&mut self, breakpoints: &HashSet<u16>, max_steps: usize) -> (r: Result<usize, Error>)
        requires
            old(self).wf(),
        ensures
            final(self).wf(),
            final(self).lcd == old(self).lcd,
            match run_spec(old(self).cpu, old(self).mmu@, breakpoints@, max_steps as nat, 0) {
                Ok((c, m, n)) => r == Ok::<usize, Error>(n as usize) && final(self).cpu == c
                    && final(self).mmu@ == m,
                Err((e, c, m)) => r == Err::<usize, Error>(e) && final(self).cpu == c
                    && final(self).mmu@ == m,
            },
    {
        self.cpu.run(&mut self.mmu, breakpoints, max_steps)
    }
}

} // verus!
