//! The emulated machine: processor, memory bus, cartridge and display.

pub mod bus;
pub mod cartridge;
pub mod cpu;
pub mod debug;
pub mod frame;
pub mod ppu;

use crate::emulator::bus::bios::BIOS_SIZE;
use crate::emulator::bus::{
    bus_button_spec, bus_hblank_end_spec, bus_power_on, bus_hblank_start_spec, bus_view_wf, bus_vblank_spec, Bus, BusView,
};
use crate::emulator::cartridge::{Cartridge, CARTRIDGE_RAM_SIZE};
use crate::emulator::cpu::execution::{poll_interrupts_spec, power_on_cpu, step_spec};
use crate::emulator::cpu::registers::{instruction_size, PC_REG};
use crate::emulator::cpu::{flush_spec, CpuView, CPU};
use crate::emulator::frame::RgbaFrame;
use crate::joypad::InputKeys;
use crate::scheduler::{event_item, is_min_item, lemma_min_item_unique, EventTag, SchedulerView};
use vstd::prelude::*;

verus! {

/// Refers to an *absolute* memory address.
/// Any component which takes this as an incoming type *must* pre-process the value to turn it into an address
/// relative to itself.
pub type MemoryAddress = u32;

/// An address with its low bits cleared for the access size.
pub type AlignedAddress = u32;

/// How the emulator starts.
#[derive(Debug)]
pub struct EmuOptions {
    /// Whether to skip the bios.
    /// This is automatically enabled if no BIOS is provided.
    pub skip_bios: bool,
    /// BIOS to use.
    /// If none is provided then the bios region of memory will be zeroed out, and `skip_bios` will be forcefully enabled.
    pub bios: Option<Vec<u8>>,
    /// `true` if the emulator should run in debug mode.
    /// This will enable breakpoints.
    pub debugging: bool,
}

impl Default for EmuOptions {
    fn default() -> (r: EmuOptions)
        ensures
            r.skip_bios,
            r.bios.is_none(),
            !r.debugging,
    {
        EmuOptions { skip_bios: true, bios: None, debugging: false }
    }
}

/// The addresses at which debugging stops.
pub struct EmuDebugging {
    pub breakpoints: Vec<MemoryAddress>,
}

/// The abstract state of the machine: processor and bus.
pub struct EmulatorView {
    pub cpu: CpuView,
    pub bus: BusView,
}

/// The main emulator struct
pub struct GBAEmulator {
    pub cpu: CPU,
    pub bus: Bus,
    pub debug: EmuDebugging,
    pub options: EmuOptions,
}

impl View for GBAEmulator {
    type V = EmulatorView;

    open spec fn view(&self) -> EmulatorView {
        EmulatorView { cpu: self.cpu@, bus: self.bus@ }
    }
}

/// The most events handled in one step. A step that finds more due events leaves the rest
/// in the queue for the next step.
pub const EVENT_LIMIT: u64 = 0xFFFF_FFFF_FFFF_FFFF;

/// The most instructions run while waiting for the end of a frame.
pub const STEP_LIMIT: u64 = 0xFFFF_FFFF_FFFF_FFFF;

/// The BIOS image to map: the one given, or zeroes.
pub open spec fn bios_image(data: Option<Vec<u8>>) -> Seq<u8> {
    match data {
        Some(v) => v@,
        None => Seq::new(BIOS_SIZE as nat, |i: int| 0u8),
    }
}

/// The bus with its clock advanced by `cycles`.
pub open spec fn time_advanced(b: BusView, cycles: u64) -> BusView {
    BusView {
        scheduler: SchedulerView {
            current_time: b.scheduler.current_time.wrapping_add(cycles),
            ..b.scheduler
        },
        ..b
    }
}

/// No event of the scheduler is due yet.
pub open spec fn none_due(s: SchedulerView) -> bool {
    forall|x: (u64, u8)| s.events.contains(x) ==> x.0 > s.current_time
}

/// The event that the scheduler hands out next: its least (time, tag) item.
pub open spec fn next_event(s: SchedulerView) -> (u64, u8) {
    choose|x: (u64, u8)| is_min_item(s.events, x)
}

/// Handling the event with tag code `code`: VBlank ends the frame, HBlank and its end drive
/// the display, an interrupt poll may take an interrupt; other events change nothing.
/// Gives the new state and whether the frame ended.
#[verifier::opaque]
pub open spec fn handle_event_spec(c: CpuView, b: BusView, code: u8) -> (CpuView, BusView, bool) {
    if code == EventTag::VBlank.spec_code() {
        (c, bus_vblank_spec(b), true)
    } else if code == EventTag::HBlank.spec_code() {
        (c, bus_hblank_start_spec(b), false)
    } else if code == EventTag::HBlankEnd.spec_code() {
        (c, bus_hblank_end_spec(b), false)
    } else if code == EventTag::PollInterrupt.spec_code() {
        let (c1, b1) = poll_interrupts_spec(c, b);
        (c1, b1, false)
    } else {
        (c, b, false)
    }
}

/// Handling the due events in order, at most `fuel` of them, until VBlank.
pub open spec fn process_events_spec(c: CpuView, b: BusView, fuel: nat) -> (CpuView, BusView, bool)
    decreases fuel,
{
    if fuel == 0 || none_due(b.scheduler) {
        (c, b, false)
    } else {
        let x = next_event(b.scheduler);
        let b1 = BusView { scheduler: SchedulerView { events: b.scheduler.events.remove(x), ..b.scheduler }, ..b };
        let (c2, b2, vblank) = handle_event_spec(c, b1, x.1);
        if vblank {
            (c2, b2, true)
        } else {
            process_events_spec(c2, b2, (fuel - 1) as nat)
        }
    }
}

/// One emulator step: the processor executes one instruction, the clock advances by two
/// cycles, and the due events are handled. Gives whether VBlank was reached.
#[verifier::opaque]
pub open spec fn emu_step_spec(c: CpuView, b: BusView) -> (CpuView, BusView, bool) {
    let (c1, b1) = step_spec(c, b);
    process_events_spec(c1, time_advanced(b1, 2), EVENT_LIMIT as nat)
}

/// Stepping until VBlank, at most `fuel` steps. Gives whether VBlank was reached.
pub open spec fn run_spec(c: CpuView, b: BusView, fuel: nat) -> (CpuView, BusView, bool)
    decreases fuel,
{
    if fuel == 0 {
        (c, b, false)
    } else {
        let (c1, b1, vblank) = emu_step_spec(c, b);
        if vblank {
            (c1, b1, true)
        } else {
            run_spec(c1, b1, (fuel - 1) as nat)
        }
    }
}

/// Stepping until VBlank or until the processor is about to execute an address of
/// `breakpoints`, at most `fuel` steps. Gives whether a breakpoint stopped the run.
pub open spec fn run_debug_spec(c: CpuView, b: BusView, breakpoints: Seq<MemoryAddress>, fuel: nat) -> (
    CpuView,
    BusView,
    bool,
)
    decreases fuel,
{
    if fuel == 0 {
        (c, b, false)
    } else {
        let (c1, b1, vblank) = emu_step_spec(c, b);
        if breakpoints.contains(next_pc_of(c1)) {
            (c1, b1, true)
        } else if vblank {
            (c1, b1, false)
        } else {
            run_debug_spec(c1, b1, breakpoints, (fuel - 1) as nat)
        }
    }
}

/// The address that the processor executes next.
pub open spec fn next_pc_of(c: CpuView) -> u32 {
    c.registers.general_purpose[PC_REG as int].wrapping_sub(instruction_size(c.registers.cpsr.state))
}

/// The BIOS to map: the given one, or a zeroed one.
pub fn vec_to_bios_data(data: Option<Vec<u8>>) -> (r: Vec<u8>)
    requires
        data matches Some(v) ==> v@.len() == BIOS_SIZE,
    ensures
        r@ == bios_image(data),
        r@.len() == BIOS_SIZE,
{
    match data {
        Some(v) => v,
        None => {
            let r: Vec<u8> = vec![0; BIOS_SIZE];
            assert(r@ =~= bios_image(None));
            r
        },
    }
}

impl GBAEmulator {
    /// The invariant of the machine.
    pub open spec fn wf(&self) -> bool {
        self.cpu.wf() && self.bus.wf()
    }

    /// The breakpoints that are set.
    pub open spec fn breakpoints(&self) -> Seq<MemoryAddress> {
        self.debug.breakpoints@
    }

    /// Build the machine around a cartridge. Without a BIOS the BIOS is always skipped.
    pub fn new(rom: Cartridge, options: EmuOptions) -> (r: GBAEmulator)
        requires
            rom.wf(),
            rom@.ram.len() >= CARTRIDGE_RAM_SIZE,
            options.bios matches Some(v) ==> v@.len() == BIOS_SIZE,
        ensures
            r.wf(),
            r.breakpoints() == Seq::<MemoryAddress>::empty(),
            r.options.bios.is_none(),
            r.options.skip_bios == options.skip_bios,
            r.options.debugging == options.debugging,
            exists|b0: BusView|
                {
                    &&& bus_view_wf(b0)
                    &&& bus_power_on(b0, rom@, bios_image(options.bios))
                    &&& (r@.cpu, r@.bus) == flush_spec(
                        power_on_cpu(options.skip_bios || options.bios.is_none()),
                        b0,
                    )
                },
    {
        let mut options = options;
        let has_bios = options.bios.is_some();
        let ghost bios_spec = bios_image(options.bios);
        let bios = options.bios.take();
        let mut mmu = Bus::new(rom, vec_to_bios_data(bios));
        let ghost b0 = mmu@;
        let cpu = CPU::new(options.skip_bios || !has_bios, &mut mmu);
        let r = GBAEmulator { cpu, bus: mmu, options, debug: EmuDebugging { breakpoints: Vec::new() } };
        assert(r.breakpoints() =~= Seq::<MemoryAddress>::empty());
        r
    }

    /// Step the emulator for a single instruction.
    ///
    /// Returns `true` if `Vblank` was reached, `false` otherwise.
    pub fn step_instruction(&mut self) -> (r: bool)
        requires
            old(self).wf(),
        ensures
            final(self).wf(),
            (final(self)@.cpu, final(self)@.bus, r) == emu_step_spec(old(self)@.cpu, old(self)@.bus),
            final(self).breakpoints() == old(self).breakpoints(),
    {
        reveal(emu_step_spec);
        self.cpu.step_instruction(&mut self.bus);
        // Basic cycle counting: every instruction takes two cycles.
        self.bus.scheduler.add_time(2);
        let ghost c1 = self.cpu@;
        let ghost b1 = self.bus@;
        let mut fuel: u64 = EVENT_LIMIT;
        while fuel > 0
            invariant
                self.wf(),
                self.debug == old(self).debug,
                process_events_spec(self.cpu@, self.bus@, fuel as nat) == process_events_spec(
                    c1,
                    b1,
                    EVENT_LIMIT as nat,
                ),
                process_events_spec(c1, b1, EVENT_LIMIT as nat) == emu_step_spec(old(self)@.cpu, old(self)@.bus),
            decreases fuel,
        {
            let ghost b_before = self.bus@;
            let popped = self.bus.scheduler.pop_current();
            match popped {
                None => {
                    return false;
                },
                Some(event) => {
                    proof {
                        assert(b_before.scheduler.events.contains(event_item(event)));
                        assert(!none_due(b_before.scheduler));
                        lemma_min_item_unique(
                            b_before.scheduler.events,
                            next_event(b_before.scheduler),
                            event_item(event),
                        );
                        assert(b_before.scheduler.events.count(event_item(event)) > 0);
                        assert(event.tag != EventTag::Exit);
                    }
                    if self.handle_event(event.tag) {
                        return true;
                    }
                },
            }
            fuel = fuel - 1;
        }
        false
    }

    /// Handle one event.
    fn handle_event(&mut self, tag: EventTag) -> (r: bool)
        requires
            old(self).wf(),
            tag != EventTag::Exit,
        ensures
            final(self).wf(),
            final(self).debug == old(self).debug,
            (final(self)@.cpu, final(self)@.bus, r) == handle_event_spec(
                old(self)@.cpu,
                old(self)@.bus,
                tag.spec_code(),
            ),
    {
        reveal(handle_event_spec);
        match tag {
            EventTag::VBlank => {
                self.bus.on_vblank();
                true
            },
            EventTag::HBlank => {
                self.bus.on_hblank_start();
                false
            },
            EventTag::HBlankEnd => {
                self.bus.on_hblank_end();
                false
            },
            EventTag::PollInterrupt => {
                self.cpu.poll_interrupts(&mut self.bus);
                false
            },
            // Nothing on the bus queues an `Exit`; the other events are never scheduled.
            _ => false,
        }
    }

    /// Run the emulator until it has reached Vblank.
    pub fn run_to_vblank(&mut self)
        requires
            old(self).wf(),
        ensures
            final(self).wf(),
            (final(self)@.cpu, final(self)@.bus) == ({
                let r = run_spec(old(self)@.cpu, old(self)@.bus, STEP_LIMIT as nat);
                (r.0, r.1)
            }),
    {
        let ghost c0 = self.cpu@;
        let ghost b0 = self.bus@;
        let mut fuel: u64 = STEP_LIMIT;
        while fuel > 0
            invariant
                self.wf(),
                run_spec(self.cpu@, self.bus@, fuel as nat) == run_spec(c0, b0, STEP_LIMIT as nat),
                c0 == old(self)@.cpu,
                b0 == old(self)@.bus,
            decreases fuel,
        {
            if self.step_instruction() {
                return;
            }
            fuel = fuel - 1;
        }
    }

    /// Steps the CPU one instruction, and then checks for a breakpoint.
    ///
    /// Returns `(Vblank was reached, breakpoint was hit)`.
    pub fn step_instruction_debug(&mut self) -> (r: (bool, bool))
        requires
            old(self).wf(),
        ensures
            final(self).wf(),
            (final(self)@.cpu, final(self)@.bus, r.0) == emu_step_spec(old(self)@.cpu, old(self)@.bus),
            final(self).breakpoints() == old(self).breakpoints(),
            r.1 == final(self).breakpoints().contains(next_pc_of(final(self)@.cpu)),
    {
        let vsync = self.step_instruction();
        let next_pc = self.cpu.registers.next_pc();
        let mut hit = false;
        let mut i: usize = 0;
        while i < self.debug.breakpoints.len()
            invariant
                i <= self.debug.breakpoints@.len(),
                hit == exists|j: int| 0 <= j < i && self.debug.breakpoints@[j] == next_pc,
            decreases self.debug.breakpoints@.len() - i,
        {
            if self.debug.breakpoints[i] == next_pc {
                hit = true;
            }
            i = i + 1;
        }
        proof {
            if hit {
                let j = choose|j: int| 0 <= j < i && self.debug.breakpoints@[j] == next_pc;
                assert(self.breakpoints().contains(next_pc_of(self@.cpu)) == (exists|k: int| 0 <= k < self.breakpoints().len() && self.breakpoints()[k] == next_pc));
            }
        }
        (vsync, hit)
    }

    /// Run the emulator until it has reached `Vblank` or a breakpoint.
    ///
    /// Returns `true` if the emulator hit a breakpoint, stopping execution early.
    pub fn run_to_vblank_debug(&mut self) -> (r: bool)
        requires
            old(self).wf(),
        ensures
            final(self).wf(),
            final(self).breakpoints() == old(self).breakpoints(),
            (final(self)@.cpu, final(self)@.bus, r) == run_debug_spec(
                old(self)@.cpu,
                old(self)@.bus,
                old(self).breakpoints(),
                STEP_LIMIT as nat,
            ),
    {
        let ghost c0 = self.cpu@;
        let ghost b0 = self.bus@;
        let mut fuel: u64 = STEP_LIMIT;
        while fuel > 0
            invariant
                self.wf(),
                self.breakpoints() == old(self).breakpoints(),
                run_debug_spec(self.cpu@, self.bus@, self.breakpoints(), fuel as nat) == run_debug_spec(
                    c0,
                    b0,
                    old(self).breakpoints(),
                    STEP_LIMIT as nat,
                ),
                c0 == old(self)@.cpu,
                b0 == old(self)@.bus,
            decreases fuel,
        {
            let (vblank, breakpoint) = self.step_instruction_debug();
            if breakpoint {
                return true;
            } else if vblank {
                return false;
            }
            fuel = fuel - 1;
        }
        false
    }

    /// Press a button.
    pub fn key_down(&mut self, key: InputKeys)
        requires
            old(self).wf(),
        ensures
            final(self).wf(),
            final(self)@.cpu == old(self)@.cpu,
            final(self)@.bus == bus_button_spec(old(self)@.bus, key, true),
    {
        self.bus.on_button_changed(key, true);
    }

    /// Release a button.
    pub fn key_up(&mut self, key: InputKeys)
        requires
            old(self).wf(),
        ensures
            final(self).wf(),
            final(self)@.cpu == old(self)@.cpu,
            final(self)@.bus == bus_button_spec(old(self)@.bus, key, false),
    {
        self.bus.on_button_changed(key, false);
    }

    /// The frame the display shows.
    pub fn frame_buffer(&self) -> (r: &RgbaFrame)
        ensures
            r.0@ == self@.bus.ppu.frame,
    {
        self.bus.ppu.frame_buffer()
    }

    /// Add a breakpoint at an address.
    pub fn add_breakpoint(&mut self, address: MemoryAddress)
        ensures
            final(self).breakpoints() == old(self).breakpoints().push(address),
            final(self)@ == old(self)@,
    {
        self.debug.breakpoints.push(address);
    }
}

} // verus!
