//! Names for the register file slots, the memory-mapped keyboard registers
//! and the condition flags.

use vstd::prelude::*;

verus! {

/// A slot of the register file: eight general registers, the program
/// counter and the condition register.
#[derive(Clone, Copy, Debug, PartialEq, Eq)]
pub enum Register {
    R0,
    R1,
    R2,
    R3,
    R4,
    R5,
    R6,
    R7,
    PC,
    COND,
}

impl Register {
    /// Position of the slot in the register file.
    pub open spec fn spec_index(self) -> u16 {
        match self {
            Register::R0 => 0,
            Register::R1 => 1,
            Register::R2 => 2,
            Register::R3 => 3,
            Register::R4 => 4,
            Register::R5 => 5,
            Register::R6 => 6,
            Register::R7 => 7,
            Register::PC => 8,
            Register::COND => 9,
        }
    }

    #[verifier::when_used_as_spec(spec_index)]
    pub fn index(self) -> (i: u16)
        ensures
            i == self.spec_index(),
            i < 10,
    {
        match self {
            Register::R0 => 0,
            Register::R1 => 1,
            Register::R2 => 2,
            Register::R3 => 3,
            Register::R4 => 4,
            Register::R5 => 5,
            Register::R6 => 6,
            Register::R7 => 7,
            Register::PC => 8,
            Register::COND => 9,
        }
    }

    /// The slot at position `value`. Only ten slots exist.
    pub fn from(value: u16) -> (r: Register)
        requires
            value < 10,
        ensures
            r.index() == value,
    {
        match value {
            0 => Register::R0,
            1 => Register::R1,
            2 => Register::R2,
            3 => Register::R3,
            4 => Register::R4,
            5 => Register::R5,
            6 => Register::R6,
            7 => Register::R7,
            8 => Register::PC,
            _ => Register::COND,
        }
    }
}

/// The two memory cells through which a program sees the keyboard.
#[derive(Clone, Copy, Debug, PartialEq, Eq)]
pub enum MMRegister {
    /// Keyboard status: the top bit is set while a character waits in `KBDR`.
    KBSR,
    /// Keyboard data: the character captured by the last successful poll.
    KBDR,
}

impl MMRegister {
    pub open spec fn spec_address(self) -> u16 {
        match self {
            MMRegister::KBSR => 0xFE00,
            MMRegister::KBDR => 0xFE02,
        }
    }

    #[verifier::when_used_as_spec(spec_address)]
    pub fn address(self) -> (a: u16)
        ensures
            a == self.spec_address(),
    {
        match self {
            MMRegister::KBSR => 0xFE00,
            MMRegister::KBDR => 0xFE02,
        }
    }
}

/// The sign of the value last written to a general register.
#[derive(Clone, Copy, Debug, PartialEq, Eq)]
pub enum CondFlag {
    POS,
    ZRO,
    NEG,
}

impl CondFlag {
    /// The bit that stands for the flag in the condition register.
    pub open spec fn spec_bits(self) -> u16 {
        match self {
            CondFlag::POS => 1,
            CondFlag::ZRO => 2,
            CondFlag::NEG => 4,
        }
    }

    #[verifier::when_used_as_spec(spec_bits)]
    pub fn bits(self) -> (b: u16)
        ensures
            b == self.spec_bits(),
    {
        match self {
            CondFlag::POS => 1,
            CondFlag::ZRO => 2,
            CondFlag::NEG => 4,
        }
    }

    /// Sign classification of a word read as a 16-bit two's-complement
    /// integer: words from 0x8000 up stand for negative numbers.
    pub open spec fn spec_of(value: u16) -> CondFlag {
        if value == 0 {
            CondFlag::ZRO
        } else if value >= 0x8000 {
            CondFlag::NEG
        } else {
            CondFlag::POS
        }
    }

    #[verifier::when_used_as_spec(spec_of)]
    pub fn of(value: u16) -> (f: CondFlag)
        ensures
            f == CondFlag::spec_of(value),
    {
        if value == 0 {
            CondFlag::ZRO
        } else if value >> 15 != 0 {
            assert(value >> 15 != 0 ==> value >= 0x8000) by (bit_vector);
            CondFlag::NEG
        } else {
            assert(!(value >> 15 != 0) ==> value < 0x8000) by (bit_vector);
            CondFlag::POS
        }
    }
}

} // verus!
