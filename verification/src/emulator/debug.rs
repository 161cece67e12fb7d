//! Debugging state of the emulator.

use crate::emulator::bus::Bus;
use crate::emulator::cpu::CPU;
use crate::emulator::{GBAEmulator, MemoryAddress};
use crate::scheduler::EmuTime;
use vstd::prelude::*;

verus! {

/// A handle on the emulator with access to its internal state, for debugging.
pub struct DebugEmulator<'a>(pub &'a mut GBAEmulator);

impl<'a> DebugEmulator<'a> {
    /// The processor.
    pub fn cpu(&mut self) -> (r: &mut CPU)
        ensures
            *r == old(self).0.cpu,
            final(self).0.cpu == *final(r),
            final(self).0.bus == old(self).0.bus,
            *final(final(self).0) == *final(old(self).0),
    {
        &mut self.0.cpu
    }

    /// The bus.
    pub fn bus(&mut self) -> (r: &mut Bus)
        ensures
            *r == old(self).0.bus,
            final(self).0.bus == *final(r),
            final(self).0.cpu == old(self).0.cpu,
            *final(final(self).0) == *final(old(self).0),
    {
        &mut self.0.bus
    }

    /// The bus and the processor at once.
    pub fn bus_and_cpu(&mut self) -> (r: (&mut Bus, &mut CPU))
        ensures
            *r.0 == old(self).0.bus,
            *r.1 == old(self).0.cpu,
            final(self).0.bus == *final(r.0),
            final(self).0.cpu == *final(r.1),
            *final(final(self).0) == *final(old(self).0),
    {
        (&mut self.0.bus, &mut self.0.cpu)
    }
}

/// A point at which emulation stops.
#[derive(Clone, Debug)]
pub enum Breakpoint {
    /// A breakpoint set for a particular address in memory.
    /// Will remain even after being hit.
    Address(MemoryAddress),
    /// A breakpoint for a particular point in time.
    ///
    /// Will be removed once hit.
    Cycle(EmuTime),
}

/// The breakpoints of a debugging session and the one last hit.
pub struct EmuDebugState {
    pub breakpoints: Vec<MemoryAddress>,
    pub break_at_cycle: Option<u64>,
    pub last_hit_breakpoint: Option<Breakpoint>,
}

} // verus!
