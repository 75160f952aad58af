//! Instruction-stepped core of a Sharp SM83 machine: register file, memory,
//! cartridge, bus and the CPU engine that executes one instruction per step.
pub mod bus;
pub mod cartridge;
pub mod isa;
pub mod laws;
pub mod memory;
pub mod registers;
pub mod sm83;
pub mod tables;
pub mod types;

use crate::isa::IllegalOpcode;
use crate::sm83::SM83;
use vstd::prelude::*;

verus! {

/// The execution core of one emulated machine.
pub struct Core {
    pub sm83: SM83,
}

impl Core {
    /// A core whose CPU is in its power-on state.
    pub fn new() -> (core: Self)
        ensures
            core.sm83.pc == crate::sm83::ENTRY_POINT,
            core.sm83.reg == crate::registers::Registers::default_value(),
            core.sm83@.bus.cycles == 0,
            core.sm83.can_step(),
    {
        Self { sm83: SM83::new() }
    }

    /// Executes exactly one instruction on the CPU.
    pub fn step(&mut self) -> (done: Result<(), IllegalOpcode>)
        requires
            old(self).sm83.can_step(),
        ensures
            final(self).sm83@ == old(self).sm83@.step(),
            done == old(self).sm83@.outcome(),
    {
        self.sm83.step()
    }
}

} // verus!
