use vstd::prelude::*;
use crate::cpu::{Cpu, fault_spec};
use crate::errors::{Detail, Error, ErrorKind};
use crate::state::step_spec;

verus! {

/// Interactive stepping support: remembers the state before the last step so
/// that it can be restored, and counts the steps taken.
pub struct Debugger {
    pub previous_state: Cpu,
    pub n_iteration: u64,
}

impl Debugger {
    pub fn new() -> (r: Debugger)
        ensures
            r.previous_state@ == crate::cpu::zeroed_state(),
            r.n_iteration == 0,
    {
        Debugger { previous_state: Cpu::new(), n_iteration: 0 }
    }

    /// Remember `cpu`, then execute one instruction; count the step when it
    /// succeeds.
    pub fn step(&mut self, cpu: &mut Cpu) -> (r: Result<(), Error>)
        ensures
            final(self).previous_state@ == old(cpu)@,
            match step_spec(old(cpu)@) {
                Some(t) => r is Ok && final(cpu)@ == t && final(self).n_iteration == (
                old(self).n_iteration + 1) % 0x1_0000_0000_0000_0000,
                None => r is Err && final(cpu)@ == old(cpu)@ && final(self).n_iteration == old(
                    self,
                ).n_iteration && r->Err_0.kind == ErrorKind::UnknownInstruction
                    && r->Err_0.detail == (Detail::Instruction {
                    opcode: fault_spec(old(cpu)@).0,
                    addr: fault_spec(old(cpu)@).1,
                }),
            },
    {
        self.previous_state = cpu.clone();
        match cpu.tick() {
            Ok(()) => {
                self.n_iteration = if self.n_iteration == u64::MAX {
                    0
                } else {
                    self.n_iteration + 1
                };
                Ok(())
            },
            Err(e) => Err(e),
        }
    }

    /// Put `cpu` back in the state it had before the last step, and uncount that
    /// step.
    pub fn backtrack(&mut self, cpu: &mut Cpu)
        requires
            old(self).n_iteration > 0,
        ensures
            final(cpu)@ == old(self).previous_state@,
            final(self).previous_state@ == old(self).previous_state@,
            final(self).n_iteration == old(self).n_iteration - 1,
    {
        cpu.load_from(&self.previous_state);
        self.n_iteration = self.n_iteration - 1;
    }
}

} // verus!
