//! The keypad: button status and the keypad interrupt.

use crate::emulator::bus::interrupts::{with_poll_scheduled, InterruptManager, Interrupts};
use crate::joypad::InputKeys;
use crate::scheduler::Scheduler;
use vstd::prelude::*;

verus! {

pub const KEYSTATUS_START: u32 = 0x0400_0130;

pub const KEYSTATUS_END: u32 = 0x0400_0131;

pub const KEYINTERRUPT_START: u32 = 0x0400_0132;

pub const KEYINTERRUPT_END: u32 = 0x0400_0133;

/// The ten button bits of the keypad registers.
pub const BUTTON_BITS: u16 = 0x3FF;

/// Bit of the keypad interrupt control register that enables the interrupt.
pub const BUTTON_IRQ_ENABLE: u16 = 0x4000;

/// Bit of the keypad interrupt control register that selects the condition:
/// set for all selected buttons (logical AND), clear for any of them (logical OR).
pub const BUTTON_IRQ_CONDITION: u16 = 0x8000;

/// Displays the status of keypad buttons: a bit is set while its button is released.
///
/// Bits 0..=9: A, B, Select, Start, Right, Left, Up, Down, R, L.
#[derive(Debug, Copy, Clone)]
pub struct KeypadStatus {
    pub bits: u16,
}

impl Default for KeypadStatus {
    /// All buttons released.
    fn default() -> (r: KeypadStatus)
        ensures
            r.bits == BUTTON_BITS,
    {
        KeypadStatus { bits: 0x03FF }
    }
}

/// Selects the buttons of the keypad interrupt (bits 0..=9, same layout as the status),
/// enables it (bit 14) and selects its condition (bit 15).
#[derive(Debug, Copy, Clone)]
pub struct KeypadInterruptControl {
    pub bits: u16,
}

impl Default for KeypadInterruptControl {
    fn default() -> (r: KeypadInterruptControl)
        ensures
            r.bits == 0,
    {
        KeypadInterruptControl { bits: 0 }
    }
}

/// The status bit of a button.
pub open spec fn key_mask(key: InputKeys) -> u16 {
    match key {
        InputKeys::A => 0x001,
        InputKeys::B => 0x002,
        InputKeys::Select => 0x004,
        InputKeys::Start => 0x008,
        InputKeys::Right => 0x010,
        InputKeys::Left => 0x020,
        InputKeys::Up => 0x040,
        InputKeys::Down => 0x080,
        InputKeys::ShoulderRight => 0x100,
        InputKeys::ShoulderLeft => 0x200,
    }
}

/// The status bit of a button.
pub fn button_mask(key: InputKeys) -> (r: u16)
    ensures
        r == key_mask(key),
{
    match key {
        InputKeys::A => 0x001,
        InputKeys::B => 0x002,
        InputKeys::Select => 0x004,
        InputKeys::Start => 0x008,
        InputKeys::Right => 0x010,
        InputKeys::Left => 0x020,
        InputKeys::Up => 0x040,
        InputKeys::Down => 0x080,
        InputKeys::ShoulderRight => 0x100,
        InputKeys::ShoulderLeft => 0x200,
    }
}

/// The status register after a button is pressed or released.
pub open spec fn status_after(status: u16, key: InputKeys, pressed: bool) -> u16 {
    if pressed {
        status & !key_mask(key)
    } else {
        status | key_mask(key)
    }
}

/// Pressing a released button and releasing it again leaves the key status as it was, and
/// while it is held its bit reads as pressed (clear).
pub proof fn lemma_press_release(status: u16, key: InputKeys)
    requires
        status & key_mask(key) != 0,
    ensures
        status_after(status, key, true) & key_mask(key) == 0,
        status_after(status_after(status, key, true), key, false) == status,
{
    let m = key_mask(key);
    assert(m == 1 || m == 2 || m == 4 || m == 8 || m == 0x10 || m == 0x20 || m == 0x40 || m == 0x80 || m == 0x100
        || m == 0x200);
    assert((status & !m) & m == 0) by (bit_vector);
    assert(status & m != 0 && (m == 1 || m == 2 || m == 4 || m == 8 || m == 0x10 || m == 0x20 || m == 0x40 || m
        == 0x80 || m == 0x100 || m == 0x200) ==> (status & !m) | m == status) by (bit_vector);
}

/// Whether the keypad requests an interrupt for the given status and interrupt control.
pub open spec fn keypad_irq_requested(status: u16, control: u16) -> bool {
    let irq_buttons = control & BUTTON_BITS;
    let pressed = !status & BUTTON_BITS;
    if control & BUTTON_IRQ_ENABLE == 0 {
        false
    } else if control & BUTTON_IRQ_CONDITION != 0 {
        pressed & irq_buttons == irq_buttons
    } else {
        pressed & irq_buttons != 0
    }
}

pub struct Keypad {
    pub status: KeypadStatus,
    pub interrupt_control: KeypadInterruptControl,
}

impl Default for Keypad {
    /// All buttons released and the keypad interrupt disabled.
    fn default() -> (r: Keypad)
        ensures
            r.status.bits == BUTTON_BITS,
            r.interrupt_control.bits == 0,
    {
        Keypad { status: KeypadStatus { bits: 0x03FF }, interrupt_control: KeypadInterruptControl { bits: 0 } }
    }
}

impl Keypad {
    /// Record a button press or release and request the keypad interrupt when its
    /// condition holds.
    pub fn button_changed(
        &mut self,
        button: InputKeys,
        pressed: bool,
        scheduler: &mut Scheduler,
        interrupt: &mut InterruptManager,
    )
        requires
            old(scheduler).wf(),
        ensures
            final(self).status.bits == status_after(old(self).status.bits, button, pressed),
            final(self).interrupt_control == old(self).interrupt_control,
            final(scheduler).wf(),
            final(interrupt).enable == old(interrupt).enable,
            final(interrupt).master_enable == old(interrupt).master_enable,
            keypad_irq_requested(final(self).status.bits, old(self).interrupt_control.bits) ==> {
                &&& final(interrupt).flags.bits == old(interrupt).flags.bits
                    | Interrupts::Keypad.spec_bit()
                &&& final(scheduler)@ == with_poll_scheduled(old(scheduler)@)
            },
            !keypad_irq_requested(final(self).status.bits, old(self).interrupt_control.bits) ==> {
                &&& final(interrupt).flags == old(interrupt).flags
                &&& final(scheduler)@ == old(scheduler)@
            },
    {
        let mask = button_mask(button);
        // A button bit is set while the button is released.
        if pressed {
            self.status.bits = self.status.bits & !mask;
        } else {
            self.status.bits = self.status.bits | mask;
        }
        let control = self.interrupt_control.bits;
        if control & BUTTON_IRQ_ENABLE != 0 {
            let irq_buttons = control & BUTTON_BITS;
            // Inverted so that a bit is set while its button is pressed.
            let buttons = !self.status.bits & BUTTON_BITS;
            if control & BUTTON_IRQ_CONDITION != 0 {
                // Logical and, interrupt requested if ALL of the desired buttons are pressed
                if (buttons & irq_buttons) == irq_buttons {
                    interrupt.request_interrupt(Interrupts::Keypad, scheduler);
                }
            } else if buttons & irq_buttons != 0 {
                // Logical or, interrupt requested if ANY of the desired buttons is pressed
                interrupt.request_interrupt(Interrupts::Keypad, scheduler);
            }
        }
    }
}

} // verus!
