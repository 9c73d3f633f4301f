//! The machine as a mathematical value: registers, memory, the halt flag,
//! and the terminal seen as a sequence of keys still to be read and a
//! sequence of bytes already printed. Every contract of the executable
//! machine is stated over this model.

use vstd::prelude::*;
use crate::register::CondFlag;
use crate::utils::word_of;

verus! {

/// Address of the keyboard status register.
pub const KBSR: u16 = 0xFE00;

/// Address of the keyboard data register.
pub const KBDR: u16 = 0xFE02;

/// Value of the status register while a key waits in the data register.
pub const KEY_READY: u16 = 0x8000;

/// Where the program counter stands when a program starts.
pub const PC_START: u16 = 0x3000;

/// Register file position of the program counter.
pub const PC: u16 = 8;

/// Register file position of the condition register.
pub const COND: u16 = 9;

/// Sum of two words modulo 2^16.
pub open spec fn wrap_add(a: u16, b: u16) -> u16 {
    word_of(a + b)
}

/// The low eight bits of a word.
pub open spec fn low_byte(w: u16) -> u8 {
    (w % 256) as u8
}

/// The high eight bits of a word.
pub open spec fn high_byte(w: u16) -> u8 {
    (w / 256) as u8
}

/// Number of addresses from `addr` up to the keyboard status register,
/// counting around the end of memory.
pub open spec fn cells_before_status(addr: u16) -> nat {
    if addr <= KBSR {
        (KBSR - addr) as nat
    } else {
        (KBSR + 0x10000 - addr) as nat
    }
}

pub struct Machine {
    /// R0..R7, then the program counter, then the condition register.
    pub regs: Seq<u16>,
    /// One word per address.
    pub mem: Seq<u16>,
    /// Set once the program has asked to stop.
    pub halted: bool,
    /// Keys typed and not yet taken by the program, oldest first.
    pub input: Seq<u8>,
    /// Bytes the program has printed, oldest first.
    pub output: Seq<u8>,
}

impl Machine {
    pub open spec fn wf(self) -> bool {
        self.regs.len() == 10 && self.mem.len() == 0x10000
    }

    pub open spec fn reg(self, r: u16) -> u16 {
        self.regs[r as int]
    }

    pub open spec fn pc(self) -> u16 {
        self.reg(PC)
    }

    pub open spec fn cond(self) -> u16 {
        self.reg(COND)
    }

    pub open spec fn with_reg(self, r: u16, value: u16) -> Machine {
        Machine { regs: self.regs.update(r as int, value), ..self }
    }

    /// The condition register takes the sign of what register `r` holds.
    pub open spec fn with_flags(self, r: u16) -> Machine {
        self.with_reg(COND, CondFlag::of(self.reg(r)).bits())
    }

    /// A general register is loaded and the flags follow it.
    pub open spec fn load_reg(self, r: u16, value: u16) -> Machine {
        self.with_reg(r, value).with_flags(r)
    }

    pub open spec fn write(self, addr: u16, value: u16) -> Machine {
        Machine { mem: self.mem.update(addr as int, value), ..self }
    }

    /// The keyboard is asked for a key. A waiting key moves to the data
    /// register and the status register reports it; with none waiting the
    /// status register is cleared.
    pub open spec fn poll(self) -> Machine {
        if self.input.len() > 0 {
            Machine { input: self.input.drop_first(), ..self }.write(KBSR, KEY_READY).write(
                KBDR,
                self.input[0] as u16,
            )
        } else {
            self.write(KBSR, 0)
        }
    }

    /// The word that a read of `addr` returns. The status register answers
    /// for the keyboard as it is at the moment of the read.
    pub open spec fn read_value(self, addr: u16) -> u16 {
        if addr == KBSR {
            if self.input.len() > 0 {
                KEY_READY
            } else {
                0
            }
        } else {
            self.mem[addr as int]
        }
    }

    /// The machine after a read of `addr`: only a read of the status
    /// register changes anything.
    pub open spec fn after_read(self, addr: u16) -> Machine {
        if addr == KBSR {
            self.poll()
        } else {
            self
        }
    }

    pub open spec fn emit(self, byte: u8) -> Machine {
        Machine { output: self.output.push(byte), ..self }
    }

    pub open spec fn emit_all(self, bytes: Seq<u8>) -> Machine {
        Machine { output: self.output + bytes, ..self }
    }

    pub open spec fn halt(self) -> Machine {
        Machine { halted: true, ..self }
    }

    /// The key at the head of the input leaves it.
    pub open spec fn take_key(self) -> Machine {
        Machine { input: self.input.drop_first(), ..self }
    }

    /// The state before any program has run: the program counter at the
    /// start address, the condition register at zero, everything else
    /// zero, nothing typed, nothing printed.
    pub open spec fn blank() -> Machine {
        Machine {
            regs: Seq::new(
                10,
                |i: int|
                    if i == PC {
                        PC_START
                    } else if i == COND {
                        CondFlag::ZRO.bits()
                    } else {
                        0u16
                    },
            ),
            mem: Seq::new(0x10000, |i: int| 0u16),
            halted: false,
            input: Seq::empty(),
            output: Seq::empty(),
        }
    }
}

/// A read returns what the cell holds once the read is done: for the
/// status register that is what the poll has left there. A read of any
/// other address changes nothing.
pub proof fn lemma_read_value_is_cell_after_read(s: Machine, addr: u16)
    requires
        s.wf(),
    ensures
        s.read_value(addr) == s.after_read(addr).mem[addr as int],
        s.after_read(addr).wf(),
        addr != KBSR ==> s.after_read(addr) == s,
{
}

} // verus!
