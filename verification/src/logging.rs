//! Snapshots of the processor registers for binary trace logs.

use crate::emulator::cpu::registers::{raw_of_psr, Registers};
use vstd::prelude::*;

verus! {

/// The register file packed as it is written to a trace: R0-R15, then CPSR and SPSR.
#[derive(Debug)]
pub struct InstructionSnapshot {
    pub r0: u32,
    pub r1: u32,
    pub r2: u32,
    pub r3: u32,
    pub r4: u32,
    pub r5: u32,
    pub r6: u32,
    pub r7: u32,
    pub r8: u32,
    pub r9: u32,
    pub r10: u32,
    pub r11: u32,
    pub r12: u32,
    pub r13: u32,
    pub r14: u32,
    pub r15: u32,
    pub cpsr: u32,
    pub spsr: u32,
}

impl InstructionSnapshot {
    /// Take a snapshot of the registers.
    pub fn from_registers(reg: &Registers) -> (r: InstructionSnapshot)
        ensures
            r.r0 == reg@.general_purpose[0],
            r.r1 == reg@.general_purpose[1],
            r.r2 == reg@.general_purpose[2],
            r.r3 == reg@.general_purpose[3],
            r.r4 == reg@.general_purpose[4],
            r.r5 == reg@.general_purpose[5],
            r.r6 == reg@.general_purpose[6],
            r.r7 == reg@.general_purpose[7],
            r.r8 == reg@.general_purpose[8],
            r.r9 == reg@.general_purpose[9],
            r.r10 == reg@.general_purpose[10],
            r.r11 == reg@.general_purpose[11],
            r.r12 == reg@.general_purpose[12],
            r.r13 == reg@.general_purpose[13],
            r.r14 == reg@.general_purpose[14],
            r.r15 == reg@.general_purpose[15],
            r.cpsr == raw_of_psr(reg@.cpsr),
            r.spsr == raw_of_psr(reg@.spsr),
    {
        InstructionSnapshot {
            r0: reg.general_purpose[0],
            r1: reg.general_purpose[1],
            r2: reg.general_purpose[2],
            r3: reg.general_purpose[3],
            r4: reg.general_purpose[4],
            r5: reg.general_purpose[5],
            r6: reg.general_purpose[6],
            r7: reg.general_purpose[7],
            r8: reg.general_purpose[8],
            r9: reg.general_purpose[9],
            r10: reg.general_purpose[10],
            r11: reg.general_purpose[11],
            r12: reg.general_purpose[12],
            r13: reg.general_purpose[13],
            r14: reg.general_purpose[14],
            r15: reg.general_purpose[15],
            cpsr: reg.cpsr.as_raw(),
            spsr: reg.spsr.as_raw(),
        }
    }
}

} // verus!
