//! The ARM7TDMI register file: general purpose registers, the banked registers of
//! the different processor modes and the program status registers.

use vstd::prelude::*;

verus! {

/// Index of PC register
pub const PC_REG: usize = 15;

/// Index of the link register
pub const LINK_REG: usize = 14;

/// Index of the stack pointer register
pub const SP_REG: usize = 13;

/// Instruction set the processor currently decodes.
#[derive(Debug, PartialEq, Eq, Structural, Copy, Clone)]
pub enum State {
    /// 32 Bit opcodes.
    Arm,
    /// 16 Bit opcodes
    Thumb,
}

impl State {
    /// The value of the `T` bit of the CPSR for this state.
    pub open spec fn spec_bit(self) -> u32 {
        match self {
            State::Arm => 0,
            State::Thumb => 1,
        }
    }

    /// Decode the `T` bit of a program status register.
    pub fn from_bit(bit: u32) -> (r: Option<State>)
        ensures
            bit == 0 ==> r == Some(State::Arm),
            bit == 1 ==> r == Some(State::Thumb),
            bit > 1 ==> r.is_none(),
    {
        if bit == 0 {
            Some(State::Arm)
        } else if bit == 1 {
            Some(State::Thumb)
        } else {
            None
        }
    }
}

/// The mode the CPU can find itself in.
/// Triggered by different exceptions.
#[derive(Debug, PartialEq, Eq, Structural, Copy, Clone)]
pub enum Mode {
    User,
    FIQ,
    IRQ,
    Supervisor,
    Abort,
    Undefined,
    System,
}

/// `true` for the five-bit patterns that name a processor mode.
pub open spec fn is_mode_bits(bits: u32) -> bool {
    bits == 0b10000 || bits == 0b10001 || bits == 0b10010 || bits == 0b10011 || bits == 0b10111
        || bits == 0b11011 || bits == 0b11111
}

/// The processor mode named by a five-bit pattern.
pub open spec fn mode_of_bits(bits: u32) -> Mode
    recommends
        is_mode_bits(bits),
{
    if bits == 0b10000 {
        Mode::User
    } else if bits == 0b10001 {
        Mode::FIQ
    } else if bits == 0b10010 {
        Mode::IRQ
    } else if bits == 0b10011 {
        Mode::Supervisor
    } else if bits == 0b10111 {
        Mode::Abort
    } else if bits == 0b11011 {
        Mode::Undefined
    } else {
        Mode::System
    }
}

impl Mode {
    /// The five-bit pattern of this mode in a program status register.
    pub open spec fn spec_bits(self) -> u32 {
        match self {
            Mode::User => 0b10000,
            Mode::FIQ => 0b10001,
            Mode::IRQ => 0b10010,
            Mode::Supervisor => 0b10011,
            Mode::Abort => 0b10111,
            Mode::Undefined => 0b11011,
            Mode::System => 0b11111,
        }
    }

    /// The five-bit pattern of this mode in a program status register.
    pub fn to_bits(self) -> (r: u32)
        ensures
            r == self.spec_bits(),
    {
        match self {
            Mode::User => 0b10000,
            Mode::FIQ => 0b10001,
            Mode::IRQ => 0b10010,
            Mode::Supervisor => 0b10011,
            Mode::Abort => 0b10111,
            Mode::Undefined => 0b11011,
            Mode::System => 0b11111,
        }
    }

    /// Decode the five mode bits of a program status register.
    pub fn from_bits(bits: u32) -> (r: Option<Mode>)
        ensures
            is_mode_bits(bits) ==> r == Some(mode_of_bits(bits)),
            !is_mode_bits(bits) ==> r.is_none(),
    {
        if bits == 0b10000 {
            Some(Mode::User)
        } else if bits == 0b10001 {
            Some(Mode::FIQ)
        } else if bits == 0b10010 {
            Some(Mode::IRQ)
        } else if bits == 0b10011 {
            Some(Mode::Supervisor)
        } else if bits == 0b10111 {
            Some(Mode::Abort)
        } else if bits == 0b11011 {
            Some(Mode::Undefined)
        } else if bits == 0b11111 {
            Some(Mode::System)
        } else {
            None
        }
    }

    /// Index of this mode in a register bank.
    pub open spec fn spec_bank_index(self) -> usize {
        match self {
            Mode::User | Mode::System => 0,
            Mode::FIQ => 1,
            Mode::IRQ => 4,
            Mode::Supervisor => 2,
            Mode::Abort => 3,
            Mode::Undefined => 5,
        }
    }

    /// Converts the current mode to an index for a register bank.
    pub fn to_bank_index(self) -> (r: usize)
        ensures
            r == self.spec_bank_index(),
            r < 6,
    {
        match self {
            Mode::User | Mode::System => 0,
            Mode::FIQ => 1,
            Mode::IRQ => 4,
            Mode::Supervisor => 2,
            Mode::Abort => 3,
            Mode::Undefined => 5,
        }
    }

    /// `false` for the two modes without a saved program status register.
    pub open spec fn spec_has_spsr(self) -> bool {
        !(self == Mode::User || self == Mode::System)
    }

    /// Converts the mode to an index for the bank of saved program status registers.
    pub fn to_spsr_index(self) -> (r: usize)
        requires
            self.spec_has_spsr(),
        ensures
            r < 5,
            self == Mode::FIQ ==> r == 0,
            self == Mode::Supervisor ==> r == 1,
            self == Mode::Abort ==> r == 2,
            self == Mode::IRQ ==> r == 3,
            self == Mode::Undefined ==> r == 4,
    {
        match self {
            Mode::FIQ => 0,
            Mode::IRQ => 3,
            Mode::Supervisor => 1,
            Mode::Abort => 2,
            _ => 4,
        }
    }

    /// Whether the mode has its own saved program status register.
    pub fn has_spsr(self) -> (r: bool)
        ensures
            r == self.spec_has_spsr(),
    {
        !(self == Mode::User || self == Mode::System)
    }
}

/// Bits of a program status register that no flag or field uses; they are kept as written.
pub const PSR_RESERVED_MASK: u32 = 0x0FFF_FF00;

/// The abstract content of a program status register.
#[derive(Copy, Clone)]
pub struct PsrView {
    pub sign: bool,
    pub zero: bool,
    pub carry: bool,
    pub overflow: bool,
    pub irq_disable: bool,
    pub fiq_disable: bool,
    pub state: State,
    pub mode: Mode,
    pub reserved: u32,
}

/// `bit` when `flag` holds, `0` otherwise.
pub open spec fn flag_bit(flag: bool, bit: u32) -> u32 {
    if flag {
        bit
    } else {
        0
    }
}

/// The decoding of a raw 32-bit program status register value.
pub open spec fn psr_of_raw(value: u32) -> PsrView {
    PsrView {
        sign: value & 0x8000_0000 != 0,
        zero: value & 0x4000_0000 != 0,
        carry: value & 0x2000_0000 != 0,
        overflow: value & 0x1000_0000 != 0,
        irq_disable: value & 0x80 != 0,
        fiq_disable: value & 0x40 != 0,
        state: if value & 0x20 != 0 {
            State::Thumb
        } else {
            State::Arm
        },
        mode: mode_of_bits(value & 0x1F),
        reserved: value & PSR_RESERVED_MASK,
    }
}

/// The packing of a program status register into 32 bits.
pub open spec fn raw_of_psr(p: PsrView) -> u32 {
    p.reserved | flag_bit(p.sign, 0x8000_0000) | flag_bit(p.zero, 0x4000_0000) | flag_bit(
        p.carry,
        0x2000_0000,
    ) | flag_bit(p.overflow, 0x1000_0000) | flag_bit(p.irq_disable, 0x80) | flag_bit(
        p.fiq_disable,
        0x40,
    ) | flag_bit(p.state == State::Thumb, 0x20) | p.mode.spec_bits()
}

/// `true` when the five mode bits of `value` name a processor mode.
pub open spec fn raw_psr_is_valid(value: u32) -> bool {
    is_mode_bits(value & 0x1F)
}

/// Program Status Register, used in the CPSR and SPSR registers.
///
/// Not implemented as raw bitfields due to high-performance requirements.
#[derive(Debug, Clone, Copy)]
pub struct PSR {
    sign: bool,
    zero: bool,
    carry: bool,
    overflow: bool,
    irq_disable: bool,
    fiq_disable: bool,
    state: State,
    mode: Mode,
    reserved: u32,
}

impl View for PSR {
    type V = PsrView;

    closed spec fn view(&self) -> PsrView {
        PsrView {
            sign: self.sign,
            zero: self.zero,
            carry: self.carry,
            overflow: self.overflow,
            irq_disable: self.irq_disable,
            fiq_disable: self.fiq_disable,
            state: self.state,
            mode: self.mode,
            reserved: self.reserved,
        }
    }
}

impl PSR {
    /// Only the reserved bits of a register hold reserved data.
    #[verifier::type_invariant]
    spec fn reserved_in_mask(self) -> bool {
        self.reserved & !PSR_RESERVED_MASK == 0
    }

    /// The register after reset: all flags clear, ARM state, User mode.
    pub open spec fn spec_default() -> PsrView {
        PsrView {
            sign: false,
            zero: false,
            carry: false,
            overflow: false,
            irq_disable: false,
            fiq_disable: false,
            state: State::Arm,
            mode: Mode::User,
            reserved: 0,
        }
    }

    /// A register with all flags clear, in ARM state and User mode.
    pub fn new() -> (r: PSR)
        ensures
            r@ == PSR::spec_default(),
    {
        assert(0u32 & !PSR_RESERVED_MASK == 0) by (bit_vector);
        PSR {
            sign: false,
            zero: false,
            carry: false,
            overflow: false,
            irq_disable: false,
            fiq_disable: false,
            state: State::Arm,
            mode: Mode::User,
            reserved: 0,
        }
    }

    /// Whether the mode bits of a raw status register value name a processor mode.
    pub fn is_valid_raw(raw: u32) -> (r: bool)
        ensures
            r == raw_psr_is_valid(raw),
    {
        Mode::from_bits(raw & 0x1F).is_some()
    }

    /// Decode a raw 32-bit value. Its five mode bits must name a processor mode; packing the
    /// register again gives back every bit of the value.
    pub fn from_raw(raw: u32) -> (r: PSR)
        requires
            raw_psr_is_valid(raw),
        ensures
            r@ == psr_of_raw(raw),
            raw_of_psr(r@) == raw,
    {
        proof {
            lemma_raw_psr_roundtrip(raw);
        }
        let state_bit: u32 = (raw >> 5u32) & 1;
        let state = if state_bit == 1 {
            State::Thumb
        } else {
            State::Arm
        };
        let mode = match Mode::from_bits(raw & 0x1F) {
            Some(m) => m,
            None => Mode::User,
        };
        proof {
            lemma_state_bit(raw);
            assert((raw & PSR_RESERVED_MASK) & !PSR_RESERVED_MASK == 0) by (bit_vector);
        }
        PSR {
            sign: raw & 0x8000_0000 != 0,
            zero: raw & 0x4000_0000 != 0,
            carry: raw & 0x2000_0000 != 0,
            overflow: raw & 0x1000_0000 != 0,
            irq_disable: raw & 0x80 != 0,
            fiq_disable: raw & 0x40 != 0,
            state,
            mode,
            reserved: raw & PSR_RESERVED_MASK,
        }
    }

    pub fn sign(&self) -> (r: bool)
        ensures
            r == self@.sign,
    {
        self.sign
    }

    pub fn zero(&self) -> (r: bool)
        ensures
            r == self@.zero,
    {
        self.zero
    }

    pub fn carry(&self) -> (r: bool)
        ensures
            r == self@.carry,
    {
        self.carry
    }

    pub fn overflow(&self) -> (r: bool)
        ensures
            r == self@.overflow,
    {
        self.overflow
    }

    pub fn irq_disable(&self) -> (r: bool)
        ensures
            r == self@.irq_disable,
    {
        self.irq_disable
    }

    pub fn fiq_disable(&self) -> (r: bool)
        ensures
            r == self@.fiq_disable,
    {
        self.fiq_disable
    }

    pub fn state(&self) -> (r: State)
        ensures
            r == self@.state,
    {
        self.state
    }

    pub fn mode(&self) -> (r: Mode)
        ensures
            r == self@.mode,
    {
        self.mode
    }

    pub fn set_sign(&mut self, value: bool)
        ensures
            final(self)@ == (PsrView { sign: value, ..old(self)@ }),
    {
        proof {
            use_type_invariant(&*self);
        }
        self.sign = value;
    }

    pub fn set_zero(&mut self, value: bool)
        ensures
            final(self)@ == (PsrView { zero: value, ..old(self)@ }),
    {
        proof {
            use_type_invariant(&*self);
        }
        self.zero = value;
    }

    pub fn set_carry(&mut self, value: bool)
        ensures
            final(self)@ == (PsrView { carry: value, ..old(self)@ }),
    {
        proof {
            use_type_invariant(&*self);
        }
        self.carry = value;
    }

    pub fn set_overflow(&mut self, value: bool)
        ensures
            final(self)@ == (PsrView { overflow: value, ..old(self)@ }),
    {
        proof {
            use_type_invariant(&*self);
        }
        self.overflow = value;
    }

    pub fn set_irq_disable(&mut self, value: bool)
        ensures
            final(self)@ == (PsrView { irq_disable: value, ..old(self)@ }),
    {
        proof {
            use_type_invariant(&*self);
        }
        self.irq_disable = value;
    }

    pub fn set_fiq_disable(&mut self, value: bool)
        ensures
            final(self)@ == (PsrView { fiq_disable: value, ..old(self)@ }),
    {
        proof {
            use_type_invariant(&*self);
        }
        self.fiq_disable = value;
    }

    pub fn set_state(&mut self, value: State)
        ensures
            final(self)@ == (PsrView { state: value, ..old(self)@ }),
    {
        proof {
            use_type_invariant(&*self);
        }
        self.state = value;
    }

    pub fn set_mode(&mut self, value: Mode)
        ensures
            final(self)@ == (PsrView { mode: value, ..old(self)@ }),
    {
        proof {
            use_type_invariant(&*self);
        }
        self.mode = value;
    }

    /// Pack the contents of the PSR into a single 32-bit value. Its mode bits always name a
    /// mode, and decoding it gives back this register.
    pub fn as_raw(&self) -> (r: u32)
        ensures
            r == raw_of_psr(self@),
            raw_psr_is_valid(r),
            psr_of_raw(r) == self@,
    {
        proof {
            use_type_invariant(self);
            lemma_psr_raw_roundtrip(self@);
        }
        let mut result = self.reserved;
        result = result | if self.sign {
            0x8000_0000u32
        } else {
            0
        };
        result = result | if self.zero {
            0x4000_0000u32
        } else {
            0
        };
        result = result | if self.carry {
            0x2000_0000u32
        } else {
            0
        };
        result = result | if self.overflow {
            0x1000_0000u32
        } else {
            0
        };
        result = result | if self.irq_disable {
            0x80u32
        } else {
            0
        };
        result = result | if self.fiq_disable {
            0x40u32
        } else {
            0
        };
        result = result | if self.state == State::Thumb {
            0x20u32
        } else {
            0
        };
        result | self.mode.to_bits()
    }

    /// Updates only the control flags of the PSR.
    /// The provided `value` will therefore only have the most significant `4` bits examined.
    pub fn update_control_flags(&mut self, value: u32)
        ensures
            final(self)@ == (PsrView {
                sign: value & 0x8000_0000 != 0,
                zero: value & 0x4000_0000 != 0,
                carry: value & 0x2000_0000 != 0,
                overflow: value & 0x1000_0000 != 0,
                ..old(self)@
            }),
    {
        proof {
            use_type_invariant(&*self);
        }
        self.sign = value & 0x8000_0000 != 0;
        self.zero = value & 0x4000_0000 != 0;
        self.carry = value & 0x2000_0000 != 0;
        self.overflow = value & 0x1000_0000 != 0;
    }
}

impl Default for PSR {
    fn default() -> (r: PSR)
        ensures
            r@ == PSR::spec_default(),
    {
        PSR::new()
    }
}

proof fn lemma_state_bit(raw: u32)
    ensures
        ((raw >> 5u32) & 1 == 1) == (raw & 0x20 != 0),
{
    assert(((raw >> 5u32) & 1 == 1) == (raw & 0x20 != 0)) by (bit_vector);
}

proof fn lemma_raw_bits_cover(v: u32)
    ensures
        (v & PSR_RESERVED_MASK) | (if v & 0x8000_0000 != 0 { 0x8000_0000u32 } else { 0 }) | (if v
            & 0x4000_0000 != 0 {
            0x4000_0000u32
        } else {
            0
        }) | (if v & 0x2000_0000 != 0 { 0x2000_0000u32 } else { 0 }) | (if v & 0x1000_0000 != 0 {
            0x1000_0000u32
        } else {
            0
        }) | (if v & 0x80 != 0 { 0x80u32 } else { 0 }) | (if v & 0x40 != 0 { 0x40u32 } else { 0 }) | (
        if v & 0x20 != 0 {
            0x20u32
        } else {
            0
        }) | (v & 0x1F) == v,
{
    assert((v & 0x0FFF_FF00) | (if v & 0x8000_0000 != 0 { 0x8000_0000u32 } else { 0 }) | (if v
        & 0x4000_0000 != 0 {
        0x4000_0000u32
    } else {
        0
    }) | (if v & 0x2000_0000 != 0 { 0x2000_0000u32 } else { 0 }) | (if v & 0x1000_0000 != 0 {
        0x1000_0000u32
    } else {
        0
    }) | (if v & 0x80 != 0 { 0x80u32 } else { 0 }) | (if v & 0x40 != 0 { 0x40u32 } else { 0 }) | (
    if v & 0x20 != 0 {
        0x20u32
    } else {
        0
    }) | (v & 0x1F) == v) by (bit_vector);
}

/// Packing a decoded register gives back the raw value it was decoded from.
pub proof fn lemma_raw_psr_roundtrip(value: u32)
    requires
        raw_psr_is_valid(value),
    ensures
        raw_of_psr(psr_of_raw(value)) == value,
{
    lemma_raw_bits_cover(value);
    let m = value & 0x1F;
    assert(mode_of_bits(m).spec_bits() == m);
}

proof fn lemma_decode_packed_bits(r: u32, s: bool, z: bool, c: bool, o: bool, i: bool, f: bool, t: bool, m: u32)
    requires
        r & !0x0FFF_FF00u32 == 0,
        m == 0b10000 || m == 0b10001 || m == 0b10010 || m == 0b10011 || m == 0b10111 || m == 0b11011
            || m == 0b11111,
    ensures
        ({
            let v = r | (if s { 0x8000_0000u32 } else { 0 }) | (if z { 0x4000_0000u32 } else { 0 }) | (
            if c {
                0x2000_0000u32
            } else {
                0
            }) | (if o { 0x1000_0000u32 } else { 0 }) | (if i { 0x80u32 } else { 0 }) | (if f {
                0x40u32
            } else {
                0
            }) | (if t { 0x20u32 } else { 0 }) | m;
            &&& (v & 0x8000_0000 != 0) == s
            &&& (v & 0x4000_0000 != 0) == z
            &&& (v & 0x2000_0000 != 0) == c
            &&& (v & 0x1000_0000 != 0) == o
            &&& (v & 0x80 != 0) == i
            &&& (v & 0x40 != 0) == f
            &&& (v & 0x20 != 0) == t
            &&& v & 0x1F == m
            &&& v & 0x0FFF_FF00 == r
        }),
{
    assert({
        let v = r | (if s { 0x8000_0000u32 } else { 0 }) | (if z { 0x4000_0000u32 } else { 0 }) | (if c {
            0x2000_0000u32
        } else {
            0
        }) | (if o { 0x1000_0000u32 } else { 0 }) | (if i { 0x80u32 } else { 0 }) | (if f {
            0x40u32
        } else {
            0
        }) | (if t { 0x20u32 } else { 0 }) | m;
        &&& (v & 0x8000_0000 != 0) == s
        &&& (v & 0x4000_0000 != 0) == z
        &&& (v & 0x2000_0000 != 0) == c
        &&& (v & 0x1000_0000 != 0) == o
        &&& (v & 0x80 != 0) == i
        &&& (v & 0x40 != 0) == f
        &&& (v & 0x20 != 0) == t
        &&& v & 0x1F == m
        &&& v & 0x0FFF_FF00 == r
    }) by (bit_vector)
        requires
            r & !0x0FFF_FF00u32 == 0,
            m == 0b10000 || m == 0b10001 || m == 0b10010 || m == 0b10011 || m == 0b10111 || m
                == 0b11011 || m == 0b11111,
    ;
}

/// Decoding a packed register gives back the register, when its reserved part holds
/// reserved bits only.
pub proof fn lemma_psr_raw_roundtrip(p: PsrView)
    requires
        p.reserved & !PSR_RESERVED_MASK == 0,
    ensures
        raw_psr_is_valid(raw_of_psr(p)),
        psr_of_raw(raw_of_psr(p)) == p,
{
    lemma_decode_packed_bits(
        p.reserved,
        p.sign,
        p.zero,
        p.carry,
        p.overflow,
        p.irq_disable,
        p.fiq_disable,
        p.state == State::Thumb,
        p.mode.spec_bits(),
    );
    assert(mode_of_bits(p.mode.spec_bits()) == p.mode);
}

} // verus!

verus! {

/// The abstract content of the register file.
pub struct RegistersView {
    pub general_purpose: Seq<u32>,
    pub cpsr: PsrView,
    pub spsr: PsrView,
    pub spsr_bank: Seq<PsrView>,
    pub r8_bank: Seq<u32>,
    pub r9_bank: Seq<u32>,
    pub r10_bank: Seq<u32>,
    pub r11_bank: Seq<u32>,
    pub r12_bank: Seq<u32>,
    pub r13_bank: Seq<u32>,
    pub r14_bank: Seq<u32>,
}

/// Contains all CPU registers.
#[derive(Debug)]
pub struct Registers {
    /// R0-R12 Registers (General Purpose Registers), followed by the stack pointer,
    /// the link register and the program counter.
    pub general_purpose: [u32; 16],
    /// CPU condition codes and control bits
    pub cpsr: PSR,
    /// Old CPSR prior to the current exception-mode being called.
    pub spsr: PSR,
    pub spsr_bank: [PSR; 5],
    // Storage banks for the different modes the CPU can be in
    pub r8_bank: [u32; 2],
    pub r9_bank: [u32; 2],
    pub r10_bank: [u32; 2],
    pub r11_bank: [u32; 2],
    pub r12_bank: [u32; 2],
    pub r13_bank: [u32; 6],
    pub r14_bank: [u32; 6],
}

impl View for Registers {
    type V = RegistersView;

    open spec fn view(&self) -> RegistersView {
        RegistersView {
            general_purpose: self.general_purpose@,
            cpsr: self.cpsr@,
            spsr: self.spsr@,
            spsr_bank: self.spsr_bank@.map_values(|p: PSR| p@),
            r8_bank: self.r8_bank@,
            r9_bank: self.r9_bank@,
            r10_bank: self.r10_bank@,
            r11_bank: self.r11_bank@,
            r12_bank: self.r12_bank@,
            r13_bank: self.r13_bank@,
            r14_bank: self.r14_bank@,
        }
    }
}

/// `true` when every register and bank of the view has the length of the hardware.
pub open spec fn registers_view_wf(r: RegistersView) -> bool {
    &&& r.general_purpose.len() == 16
    &&& r.spsr_bank.len() == 5
    &&& r.r8_bank.len() == 2
    &&& r.r9_bank.len() == 2
    &&& r.r10_bank.len() == 2
    &&& r.r11_bank.len() == 2
    &&& r.r12_bank.len() == 2
    &&& r.r13_bank.len() == 6
    &&& r.r14_bank.len() == 6
}

/// Index of the bank that holds R8-R12 of a mode: FIQ has its own, all others share one.
pub open spec fn high_bank_index(m: Mode) -> int {
    if m == Mode::FIQ {
        1
    } else {
        0
    }
}

/// The register file after saving the registers of `from` to their banks and loading
/// the banked registers of `to`, when the two modes differ.
pub open spec fn swap_banks_spec(r: RegistersView, from: Mode, to: Mode) -> RegistersView {
    if from == to {
        r
    } else {
        let fb = high_bank_index(from);
        let tb = high_bank_index(to);
        let fi = from.spec_bank_index() as int;
        let ti = to.spec_bank_index() as int;
        let gp = r.general_purpose;
        // Save the registers of the old mode.
        let r8 = r.r8_bank.update(fb, gp[8]);
        let r9 = r.r9_bank.update(fb, gp[9]);
        let r10 = r.r10_bank.update(fb, gp[10]);
        let r11 = r.r11_bank.update(fb, gp[11]);
        let r12 = r.r12_bank.update(fb, gp[12]);
        let r13 = r.r13_bank.update(fi, gp[13]);
        let r14 = r.r14_bank.update(fi, gp[14]);
        // Load the registers of the new mode.
        let new_gp = gp.update(8, r8[tb]).update(9, r9[tb]).update(10, r10[tb]).update(11, r11[tb]).update(
            12,
            r12[tb],
        ).update(13, r13[ti]).update(14, r14[ti]);
        RegistersView {
            general_purpose: new_gp,
            r8_bank: r8,
            r9_bank: r9,
            r10_bank: r10,
            r11_bank: r11,
            r12_bank: r12,
            r13_bank: r13,
            r14_bank: r14,
            ..r
        }
    }
}

/// The register file at power on: all registers zero, System mode with interrupts disabled.
pub open spec fn registers_reset_view(r: RegistersView) -> bool {
    &&& registers_view_wf(r)
    &&& forall|i: int| 0 <= i < 16 ==> r.general_purpose[i] == 0
    &&& forall|i: int| 0 <= i < 2 ==> r.r8_bank[i] == 0 && r.r9_bank[i] == 0 && r.r10_bank[i] == 0
        && r.r11_bank[i] == 0 && r.r12_bank[i] == 0
    &&& forall|i: int| 0 <= i < 6 ==> r.r13_bank[i] == 0 && r.r14_bank[i] == 0
    &&& r.cpsr == psr_of_raw(0x0000_00DF)
    &&& r.spsr == psr_of_raw(0x0000_00DF)
}

impl Default for Registers {
    fn default() -> (r: Registers)
        ensures
            registers_reset_view(r@),
            forall|i: int| 0 <= i < 5 ==> #[trigger] r@.spsr_bank[i] == PSR::spec_default(),
    {
        assert(is_mode_bits(0xDFu32 & 0x1F)) by (bit_vector);
        Registers {
            general_purpose: [0; 16],
            cpsr: PSR::from_raw(0x0000_00DF),
            spsr: PSR::from_raw(0x0000_00DF),
            spsr_bank: [PSR::new(), PSR::new(), PSR::new(), PSR::new(), PSR::new()],
            r8_bank: [0; 2],
            r9_bank: [0; 2],
            r10_bank: [0; 2],
            r11_bank: [0; 2],
            r12_bank: [0; 2],
            r13_bank: [0; 6],
            r14_bank: [0; 6],
        }
    }
}

impl Registers {
    /// The value of the program counter.
    pub fn pc(&self) -> (r: u32)
        ensures
            r == self@.general_purpose[PC_REG as int],
    {
        self.general_purpose[PC_REG]
    }

    /// The address of the instruction that executes next: the one in the decode stage of the
    /// pipeline, one instruction behind the program counter.
    pub fn next_pc(&self) -> (r: u32)
        ensures
            r == self@.general_purpose[PC_REG as int].wrapping_sub(instruction_size(self@.cpsr.state)),
    {
        let size: u32 = match self.cpsr.state() {
            State::Arm => 4,
            State::Thumb => 2,
        };
        self.general_purpose[PC_REG].wrapping_sub(size)
    }

    /// Swap the register banks. Saving the current registers in the `from_mode` bank, and loading the `to_mode` bank.
    /// Does *not* switch the mode in the CPSR, and in fact leaves the CPSR as it was.
    ///
    /// Returns `true` if the `from_mode` and `to_mode` are different (swapped), and
    /// `false` if they are the same (no swap).
    #[verifier::rlimit(50)]
    pub fn swap_register_banks(&mut self, from_mode: Mode, to_mode: Mode) -> (r: bool)
        ensures
            r == (from_mode != to_mode),
            final(self)@ == swap_banks_spec(old(self)@, from_mode, to_mode),
    {
        if from_mode == to_mode {
            return false;
        }
        let from_bank_idx = from_mode.to_bank_index();
        let to_bank_idx = to_mode.to_bank_index();
        // FIQ has its own R8-R12, all other modes share one bank.
        let from_high: usize = if from_mode == Mode::FIQ {
            from_bank_idx
        } else {
            Mode::User.to_bank_index()
        };
        let to_high: usize = if to_mode == Mode::FIQ {
            to_bank_idx
        } else {
            Mode::User.to_bank_index()
        };
        let ghost o = swap_banks_spec(old(self)@, from_mode, to_mode);
        let mut gp = self.general_purpose;

        // Save the registers of the old mode.
        let mut r8 = self.r8_bank;
        let mut r9 = self.r9_bank;
        let mut r10 = self.r10_bank;
        let mut r11 = self.r11_bank;
        let mut r12 = self.r12_bank;
        let mut r13 = self.r13_bank;
        let mut r14 = self.r14_bank;
        r8[from_high] = gp[8];
        r9[from_high] = gp[9];
        r10[from_high] = gp[10];
        r11[from_high] = gp[11];
        r12[from_high] = gp[12];
        r13[from_bank_idx] = gp[13];
        r14[from_bank_idx] = gp[14];
        assert(r8@ =~= o.r8_bank);
        assert(r9@ =~= o.r9_bank);
        assert(r10@ =~= o.r10_bank);
        assert(r11@ =~= o.r11_bank);
        assert(r12@ =~= o.r12_bank);
        assert(r13@ =~= o.r13_bank);
        assert(r14@ =~= o.r14_bank);

        // Now move all banked registers of the new mode to the current registers
        gp[8] = r8[to_high];
        gp[9] = r9[to_high];
        gp[10] = r10[to_high];
        gp[11] = r11[to_high];
        gp[12] = r12[to_high];
        gp[13] = r13[to_bank_idx];
        gp[14] = r14[to_bank_idx];
        assert(gp@ =~= o.general_purpose);

        self.general_purpose = gp;
        self.r8_bank = r8;
        self.r9_bank = r9;
        self.r10_bank = r10;
        self.r11_bank = r11;
        self.r12_bank = r12;
        self.r13_bank = r13;
        self.r14_bank = r14;
        assert(self@.spsr_bank =~= old(self)@.spsr_bank);
        true
    }

    /// Read a general purpose register.
    pub fn read_reg(&self, reg: usize) -> (r: u32)
        requires
            reg < 16,
        ensures
            r == self@.general_purpose[reg as int],
    {
        self.general_purpose[reg]
    }

    /// Write to a register.
    ///
    /// This does not update the pipeline when the program counter is written to.
    pub fn write_reg(&mut self, reg: usize, value: u32)
        requires
            reg < 16,
        ensures
            final(self)@ == (RegistersView {
                general_purpose: old(self)@.general_purpose.update(reg as int, value),
                ..old(self)@
            }),
    {
        self.general_purpose[reg] = value;
        assert(self@.general_purpose =~= old(self)@.general_purpose.update(reg as int, value));
        assert(self@.spsr_bank =~= old(self)@.spsr_bank);
    }

    /// Advance the program counter by one instruction of the current state: 4 bytes in
    /// ARM state, 2 bytes in Thumb state. The address wraps around at the end of the
    /// address space.
    pub fn advance_pc(&mut self)
        ensures
            final(self)@ == (RegistersView {
                general_purpose: old(self)@.general_purpose.update(
                    PC_REG as int,
                    old(self)@.general_purpose[PC_REG as int].wrapping_add(instruction_size(old(self)@.cpsr.state)),
                ),
                ..old(self)@
            }),
    {
        let size: u32 = match self.cpsr.state() {
            State::Arm => 4,
            State::Thumb => 2,
        };
        let pc = self.general_purpose[PC_REG];
        self.general_purpose[PC_REG] = pc.wrapping_add(size);
        assert(self@.general_purpose =~= old(self)@.general_purpose.update(
            PC_REG as int,
            old(self)@.general_purpose[PC_REG as int].wrapping_add(instruction_size(old(self)@.cpsr.state)),
        ));
    }
}

/// The size in bytes of one instruction in the given state.
pub open spec fn instruction_size(s: State) -> u32 {
    match s {
        State::Arm => 4,
        State::Thumb => 2,
    }
}

/// Swapping the register banks from one mode to another and back again leaves the
/// general purpose registers as they were.
pub proof fn lemma_swap_banks_roundtrip(r: RegistersView, a: Mode, b: Mode)
    requires
        registers_view_wf(r),
    ensures
        swap_banks_spec(swap_banks_spec(r, a, b), b, a).general_purpose == r.general_purpose,
{
    let s = swap_banks_spec(swap_banks_spec(r, a, b), b, a);
    assert(s.general_purpose =~= r.general_purpose);
}

} // verus!
