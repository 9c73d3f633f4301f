//! The six services that a program reaches through the trap instruction.

use vstd::prelude::*;
use crate::machine::{Machine, wrap_add, low_byte, high_byte, cells_before_status};
use crate::register::Register;
use crate::vm::{VM, VMError};

verus! {

#[derive(Clone, Copy, Debug, PartialEq, Eq)]
pub enum Trap {
    /// Take one key from the keyboard, without echo.
    GETC,
    /// Print one character.
    OUT,
    /// Print a string held one character to a word.
    PUTS,
    /// Prompt for one key, take it and echo it.
    IN,
    /// Print a string held two characters to a word.
    PUTSP,
    /// Stop the program.
    HALT,
}

/// The service number in a trap instruction: its low eight bits.
pub open spec fn trap_vector(raw: u16) -> u16 {
    raw % 256
}

/// The text that `IN` prints before it takes a key: "Enter a character: ".
pub open spec fn prompt() -> Seq<u8> {
    seq![
        0x45u8, 0x6e, 0x74, 0x65, 0x72, 0x20, 0x61, 0x20, 0x63, 0x68, 0x61, 0x72, 0x61, 0x63, 0x74,
        0x65, 0x72, 0x3a, 0x20,
    ]
}

/// Printing of a string of one character per word from `addr` on, up to the
/// first zero word. Each word is read as the program would read it, so a
/// string that runs over the keyboard status register polls the keyboard.
pub open spec fn puts(s: Machine, addr: u16) -> Machine
    decreases s.input.len(), cells_before_status(addr),
{
    let word = s.read_value(addr);
    let read = s.after_read(addr);
    if word == 0 {
        read
    } else {
        puts(read.emit(low_byte(word)), wrap_add(addr, 1))
    }
}

/// What one word of a packed string prints: its low byte, then its high
/// byte unless that is zero.
pub open spec fn emit_packed(s: Machine, word: u16) -> Machine {
    if high_byte(word) == 0 {
        s.emit(low_byte(word))
    } else {
        s.emit(low_byte(word)).emit(high_byte(word))
    }
}

/// Printing of a string of two characters per word from `addr` on, up to
/// the first zero word.
pub open spec fn putsp(s: Machine, addr: u16) -> Machine
    decreases s.input.len(), cells_before_status(addr),
{
    let word = s.read_value(addr);
    let read = s.after_read(addr);
    if word == 0 {
        read
    } else {
        putsp(emit_packed(read, word), wrap_add(addr, 1))
    }
}

/// Bound on the words still to be printed: the string ends at a zero word,
/// and after one pass through memory the status register reads zero unless
/// a key was waiting.
pub open spec fn words_left(s: Machine, addr: u16, word: u16) -> nat {
    if word == 0 {
        0
    } else {
        s.input.len() * 0x10000 + cells_before_status(wrap_add(addr, 1)) + 1
    }
}

impl Trap {
    pub open spec fn spec_vector(self) -> u16 {
        match self {
            Trap::GETC => 0x20,
            Trap::OUT => 0x21,
            Trap::PUTS => 0x22,
            Trap::IN => 0x23,
            Trap::PUTSP => 0x24,
            Trap::HALT => 0x25,
        }
    }

    /// The service number.
    #[verifier::when_used_as_spec(spec_vector)]
    pub fn vector(self) -> (v: u16)
        ensures
            v == self.spec_vector(),
    {
        match self {
            Trap::GETC => 0x20,
            Trap::OUT => 0x21,
            Trap::PUTS => 0x22,
            Trap::IN => 0x23,
            Trap::PUTSP => 0x24,
            Trap::HALT => 0x25,
        }
    }

    /// The service that a trap instruction names, if the machine has it.
    pub open spec fn decode(raw: u16) -> Option<Trap> {
        let v = trap_vector(raw);
        if v == 0x20 {
            Some(Trap::GETC)
        } else if v == 0x21 {
            Some(Trap::OUT)
        } else if v == 0x22 {
            Some(Trap::PUTS)
        } else if v == 0x23 {
            Some(Trap::IN)
        } else if v == 0x24 {
            Some(Trap::PUTSP)
        } else if v == 0x25 {
            Some(Trap::HALT)
        } else {
            None
        }
    }

    /// Whether the service needs a key from the keyboard.
    pub open spec fn reads_key(self) -> bool {
        self is GETC || self is IN
    }

    /// Whether the service can be carried out: the two that take a key
    /// fail when none is pending.
    pub open spec fn outcome(self, s: Machine) -> Result<(), VMError> {
        if self.reads_key() && s.input.len() == 0 {
            Err(VMError::IOError)
        } else {
            Ok(())
        }
    }

    /// The machine after the service.
    pub open spec fn effect(self, s: Machine) -> Machine {
        match self {
            Trap::GETC => if s.input.len() > 0 {
                s.take_key().with_reg(0, s.input[0] as u16)
            } else {
                s
            },
            Trap::OUT => s.emit(low_byte(s.reg(0))),
            Trap::PUTS => puts(s, s.reg(0)),
            Trap::IN => if s.input.len() > 0 {
                s.emit_all(prompt()).take_key().with_reg(0, s.input[0] as u16).emit(s.input[0])
            } else {
                s.emit_all(prompt())
            },
            Trap::PUTSP => putsp(s, s.reg(0)),
            Trap::HALT => s.halt(),
        }
    }

    /// Reads the service number from the low eight bits of a trap
    /// instruction. Numbers other than 0x20 to 0x25 name no service.
    pub fn from_raw_intr(raw_instr: u16) -> (r: Result<Trap, VMError>)
        ensures
            match r {
                Ok(t) => Trap::decode(raw_instr) == Some(t) && t.vector() == trap_vector(raw_instr),
                Err(e) => Trap::decode(raw_instr) is None && e == VMError::TrapDoesNotExist,
            },
    {
        let v = raw_instr & 0xFF;
        assert(raw_instr & 0xFF == raw_instr % 256) by (bit_vector);
        match v {
            0x20 => Ok(Trap::GETC),
            0x21 => Ok(Trap::OUT),
            0x22 => Ok(Trap::PUTS),
            0x23 => Ok(Trap::IN),
            0x24 => Ok(Trap::PUTSP),
            0x25 => Ok(Trap::HALT),
            _ => Err(VMError::TrapDoesNotExist),
        }
    }

    /// Carries out the service on `vm`. Input comes from the machine's
    /// pending keys and output joins what it has printed.
    pub fn execute(&self, vm: &mut VM) -> (r: Result<(), VMError>)
        ensures
            final(vm)@ == self.effect(old(vm)@),
            r == self.outcome(old(vm)@),
    {
        match self {
            Trap::GETC => {
                match vm.take_key() {
                    Some(key) => {
                        vm.set_register(Register::R0.index(), key as u16);
                        Ok(())
                    },
                    None => Err(VMError::IOError),
                }
            },
            Trap::OUT => {
                let value = vm.get_register(Register::R0.index());
                vm.print_byte(low_byte_of(value));
                Ok(())
            },
            Trap::IN => {
                print_prompt(vm);
                match vm.take_key() {
                    Some(key) => {
                        vm.set_register(Register::R0.index(), key as u16);
                        vm.print_byte(key);
                        Ok(())
                    },
                    None => Err(VMError::IOError),
                }
            },
            Trap::PUTS => {
                let mut address = vm.get_register(Register::R0.index());
                let mut c = vm.read_from_memory(address);
                while c != 0
                    invariant
                        puts(old(vm)@, old(vm)@.reg(0)) == (if c == 0 {
                            vm@
                        } else {
                            puts(vm@.emit(low_byte(c)), wrap_add(address, 1))
                        }),
                    decreases words_left(vm@, address, c),
                {
                    vm.print_byte(low_byte_of(c));
                    address = address.wrapping_add(1);
                    c = vm.read_from_memory(address);
                }
                Ok(())
            },
            Trap::PUTSP => {
                let mut address = vm.get_register(Register::R0.index());
                let mut c = vm.read_from_memory(address);
                while c != 0
                    invariant
                        putsp(old(vm)@, old(vm)@.reg(0)) == (if c == 0 {
                            vm@
                        } else {
                            putsp(emit_packed(vm@, c), wrap_add(address, 1))
                        }),
                    decreases words_left(vm@, address, c),
                {
                    vm.print_byte(low_byte_of(c));
                    let high = high_byte_of(c);
                    if high != 0 {
                        vm.print_byte(high);
                    }
                    address = address.wrapping_add(1);
                    c = vm.read_from_memory(address);
                }
                Ok(())
            },
            Trap::HALT => {
                vm.exit();
                Ok(())
            },
        }
    }
}

fn low_byte_of(word: u16) -> (b: u8)
    ensures
        b == low_byte(word),
{
    let low = word & 0xFF;
    assert(word & 0xFF == word % 256) by (bit_vector);
    low as u8
}

fn high_byte_of(word: u16) -> (b: u8)
    ensures
        b == high_byte(word),
{
    let high = word >> 8;
    assert(word >> 8 == word / 256) by (bit_vector);
    high as u8
}

/// Prints the prompt of `IN`.
fn print_prompt(vm: &mut VM)
    ensures
        final(vm)@ == old(vm)@.emit_all(prompt()),
{
    let text: [u8; 19] = [
        0x45, 0x6e, 0x74, 0x65, 0x72, 0x20, 0x61, 0x20, 0x63, 0x68, 0x61, 0x72, 0x61, 0x63, 0x74,
        0x65, 0x72, 0x3a, 0x20,
    ];
    assert(text@ =~= prompt());
    let mut i: usize = 0;
    while i < 19
        invariant
            i <= 19,
            text@ == prompt(),
            vm@ == old(vm)@.emit_all(prompt().subrange(0, i as int)),
        decreases 19 - i,
    {
        vm.print_byte(text[i]);
        assert(prompt().subrange(0, i as int).push(prompt()[i as int]) =~= prompt().subrange(
            0,
            i + 1,
        ));
        i += 1;
    }
    assert(prompt().subrange(0, 19) =~= prompt());
}

} // verus!
