//! The executable machine: a register file, 65,536 words of memory, a halt
//! flag, and a terminal held as two byte queues.

use vstd::prelude::*;
use std::collections::VecDeque;
use crate::instructions::OpCode;
use crate::machine::{Machine, wrap_add, KEY_READY, PC, COND};
pub use crate::machine::PC_START;
use crate::register::{CondFlag, MMRegister, Register};
use crate::traps::Trap;
use crate::utils::{read_file_as_u16, image_ok, image_origin, image_payload, place_words};

verus! {

/// Number of words of memory.
pub const MEMORY_SIZE: usize = 65536;

/// Why the machine stopped short of a clean halt.
#[derive(Clone, Copy, Debug, PartialEq, Eq)]
pub enum VMError {
    /// The instruction names no operation. Four bits always name one of the
    /// sixteen, so no instruction word produces this.
    OPCodeDoesNotExist,
    /// The trap instruction names a service that the machine does not have.
    TrapDoesNotExist,
    /// The program image has an odd number of bytes or no origin word.
    ImageIOError,
    /// The program asked for a key and none was there.
    IOError,
}

pub struct VM {
    registers: [u16; 10],
    memory: [u16; MEMORY_SIZE],
    exited: bool,
    keyboard: VecDeque<u8>,
    display: Vec<u8>,
}

impl View for VM {
    type V = Machine;

    closed spec fn view(&self) -> Machine {
        Machine {
            regs: self.registers@,
            mem: self.memory@,
            halted: self.exited,
            input: self.keyboard@,
            output: self.display@,
        }
    }
}

impl Machine {
    /// The instruction word that the next cycle fetches.
    pub open spec fn fetched(self) -> u16 {
        self.read_value(self.pc())
    }

    /// The machine after the fetch, with the program counter moved on by
    /// one word.
    pub open spec fn advanced(self) -> Machine {
        self.after_read(self.pc()).with_reg(PC, wrap_add(self.pc(), 1))
    }

    /// One cycle: fetch, move the program counter on, carry out the
    /// instruction.
    pub open spec fn step(self) -> Machine {
        OpCode::decode(self.fetched()).effect(self.fetched(), self.advanced())
    }

    /// Whether the next cycle succeeds.
    pub open spec fn step_outcome(self) -> Result<(), VMError> {
        OpCode::decode(self.fetched()).outcome(self.fetched(), self.advanced())
    }

    /// The machine after cycles have run until one raises the halt flag or
    /// fails, or until `steps` of them are done.
    pub open spec fn run(self, steps: nat) -> Machine
        decreases steps,
    {
        if steps == 0 {
            self
        } else if self.step_outcome() is Err || self.step().halted {
            self.step()
        } else {
            self.step().run((steps - 1) as nat)
        }
    }

    /// How such a run ends: with the error of the cycle that failed, or
    /// else with whether the halt flag went up within `steps` cycles.
    pub open spec fn run_outcome(self, steps: nat) -> Result<bool, VMError>
        decreases steps,
    {
        if steps == 0 {
            Ok(false)
        } else if self.step_outcome() is Err {
            Err(self.step_outcome()->Err_0)
        } else if self.step().halted {
            Ok(true)
        } else {
            self.step().run_outcome((steps - 1) as nat)
        }
    }

    /// The machine made ready for a program: the program counter at the
    /// start address and the condition register at zero.
    pub open spec fn booted(self) -> Machine {
        self.with_reg(PC, PC_START).with_reg(COND, CondFlag::ZRO.bits())
    }

    /// The machine with the payload of a program image in memory.
    pub open spec fn loaded(self, image: Seq<u8>) -> Machine {
        Machine {
            mem: place_words(self.mem, image_origin(image), image_payload(image)),
            ..self
        }
    }
}

impl Default for VM {
    fn default() -> (vm: VM)
        ensures
            vm@ == Machine::blank(),
    {
        let vm = VM {
            registers: [0, 0, 0, 0, 0, 0, 0, 0, PC_START, 2],
            memory: [0u16; MEMORY_SIZE],
            exited: false,
            keyboard: VecDeque::new(),
            display: Vec::new(),
        };
        assert(vm@.regs =~= Machine::blank().regs);
        assert(vm@.mem =~= Machine::blank().mem);
        vm
    }
}

impl VM {
    /// Every machine has ten registers and 65,536 words of memory.
    pub proof fn lemma_view_wf(&self)
        ensures
            self@.wf(),
    {
    }

    /// A machine ready for a program: the program counter at the start
    /// address, the zero flag set, everything else zero, nothing typed and
    /// nothing printed.
    pub fn new() -> (vm: VM)
        ensures
            vm@ == Machine::blank(),
    {
        Self::default()
    }

    pub fn get_register(&self, register: u16) -> (value: u16)
        requires
            register < 10,
        ensures
            value == self@.reg(register),
    {
        self.registers[register as usize]
    }

    pub fn set_register(&mut self, register: u16, value: u16)
        requires
            register < 10,
        ensures
            final(self)@ == old(self)@.with_reg(register, value),
    {
        self.registers[register as usize] = value;
    }

    pub fn write_to_memory(&mut self, address: u16, value: u16)
        ensures
            final(self)@ == old(self)@.write(address, value),
    {
        self.memory[address as usize] = value;
    }

    /// Reads one word. A read of the keyboard status register first asks
    /// the keyboard for a key.
    pub fn read_from_memory(&mut self, address: u16) -> (value: u16)
        ensures
            value == old(self)@.read_value(address),
            final(self)@ == old(self)@.after_read(address),
    {
        if address == MMRegister::KBSR.address() {
            self.check_keyboard_status();
        }
        self.memory[address as usize]
    }

    /// Asks the keyboard for a key without waiting for one.
    pub fn check_keyboard_status(&mut self)
        ensures
            final(self)@ == old(self)@.poll(),
    {
        match self.keyboard.pop_front() {
            Some(key) => {
                self.write_to_memory(MMRegister::KBSR.address(), KEY_READY);
                self.write_to_memory(MMRegister::KBDR.address(), key as u16);
            },
            None => {
                self.write_to_memory(MMRegister::KBSR.address(), 0);
            },
        }
    }

    /// Moves the program counter to the next word, around the end of
    /// memory if need be.
    pub fn increment_pc(&mut self)
        ensures
            final(self)@ == old(self)@.with_reg(PC, wrap_add(old(self)@.pc(), 1)),
    {
        let pc = self.get_register(Register::PC.index());
        self.set_register(Register::PC.index(), pc.wrapping_add(1));
    }

    /// Copies a program image into memory at the address that its first
    /// word names. A malformed image changes nothing.
    pub fn load_assembly(&mut self, image: &[u8]) -> (r: Result<(), VMError>)
        ensures
            image_ok(image@) ==> r is Ok && final(self)@ == old(self)@.loaded(image@),
            !image_ok(image@) ==> r == Err::<(), VMError>(VMError::ImageIOError) && final(self)@
                == old(self)@,
    {
        read_file_as_u16(image, &mut self.memory)
    }

    /// Fetches the instruction at the program counter and names its
    /// operation.
    pub fn fetch_and_decode(&mut self) -> (fetched: (OpCode, u16))
        ensures
            fetched.1 == old(self)@.fetched(),
            fetched.0 == OpCode::decode(fetched.1),
            final(self)@ == old(self)@.after_read(old(self)@.pc()),
    {
        let pc = self.get_register(Register::PC.index());
        let instr = self.read_from_memory(pc);
        (OpCode::from_raw_instr(instr), instr)
    }

    /// Carries out one operation with the fields of `raw_instr`.
    pub fn execute(&mut self, op_code: OpCode, raw_instr: u16) -> (r: Result<(), VMError>)
        ensures
            final(self)@ == op_code.effect(raw_instr, old(self)@),
            r == op_code.outcome(raw_instr, old(self)@),
    {
        op_code.execute(raw_instr, self)
    }

    /// Runs one cycle.
    pub fn step(&mut self) -> (r: Result<(), VMError>)
        ensures
            final(self)@ == old(self)@.step(),
            r == old(self)@.step_outcome(),
    {
        let (op_code, instr) = self.fetch_and_decode();
        self.increment_pc();
        self.execute(op_code, instr)
    }

    /// Whether the next cycle would fail for want of a key: it is a trap
    /// that takes a key, and none is pending.
    pub fn awaits_input(&self) -> (waiting: bool)
        ensures
            waiting == (self@.step_outcome() == Err::<(), VMError>(VMError::IOError)),
    {
        let pc = self.get_register(Register::PC.index());
        if pc == MMRegister::KBSR.address() {
            return false;
        }
        let instr = self.memory[pc as usize];
        match OpCode::from_raw_instr(instr) {
            OpCode::TRAP => match Trap::from_raw_intr(instr) {
                Ok(Trap::GETC) | Ok(Trap::IN) => self.keyboard.len() == 0,
                _ => false,
            },
            _ => false,
        }
    }

    /// Runs cycles until one raises the halt flag or fails, or until
    /// `max_steps` of them are done. The flag is looked at after each cycle,
    /// so a machine that is already halted still runs one. Returns whether
    /// the run ended with the flag up.
    pub fn resume(&mut self, max_steps: u64) -> (r: Result<bool, VMError>)
        ensures
            final(self)@ == old(self)@.run(max_steps as nat),
            r == old(self)@.run_outcome(max_steps as nat),
    {
        let mut left = max_steps;
        while left > 0
            invariant
                old(self)@.run(max_steps as nat) == self@.run(left as nat),
                old(self)@.run_outcome(max_steps as nat) == self@.run_outcome(left as nat),
            decreases left,
        {
            match self.step() {
                Err(e) => {
                    return Err(e);
                },
                Ok(()) => {},
            }
            if self.exited {
                return Ok(true);
            }
            left -= 1;
        }
        Ok(false)
    }

    /// Starts a program: sets the program counter to the start address and
    /// the condition register to zero, loads `image`, and runs as `resume`
    /// does. A malformed image is refused before any cycle runs.
    pub fn run(&mut self, image: &[u8], max_steps: u64) -> (r: Result<bool, VMError>)
        ensures
            image_ok(image@) ==> final(self)@ == old(self)@.booted().loaded(image@).run(
                max_steps as nat,
            ) && r == old(self)@.booted().loaded(image@).run_outcome(max_steps as nat),
            !image_ok(image@) ==> final(self)@ == old(self)@.booted() && r == Err::<
                bool,
                VMError,
            >(VMError::ImageIOError),
    {
        self.set_register(Register::PC.index(), PC_START);
        self.set_register(Register::COND.index(), CondFlag::ZRO.bits());
        match self.load_assembly(image) {
            Err(e) => Err(e),
            Ok(()) => self.resume(max_steps),
        }
    }

    /// Sets the condition register from the sign of what `register` holds.
    pub fn set_cond_flags(&mut self, register: u16)
        requires
            register < 10,
        ensures
            final(self)@ == old(self)@.with_flags(register),
    {
        let value = self.get_register(register);
        let flag = CondFlag::of(value);
        self.set_register(Register::COND.index(), flag.bits());
    }

    /// Raises the halt flag.
    pub fn exit(&mut self)
        ensures
            final(self)@ == old(self)@.halt(),
    {
        self.exited = true;
    }

    /// Whether the halt flag is up.
    pub fn halted(&self) -> (h: bool)
        ensures
            h == self@.halted,
    {
        self.exited
    }

    /// A key is typed: it joins the end of the pending input.
    pub fn push_key(&mut self, key: u8)
        ensures
            final(self)@ == (Machine { input: old(self)@.input.push(key), ..old(self)@ }),
    {
        self.keyboard.push_back(key);
    }

    /// Number of keys typed and not yet taken by the program.
    pub fn pending_keys(&self) -> (n: usize)
        ensures
            n == self@.input.len(),
    {
        self.keyboard.len()
    }

    /// Everything printed since the output was last taken.
    pub fn output(&self) -> (bytes: &Vec<u8>)
        ensures
            bytes@ == self@.output,
    {
        &self.display
    }

    /// Hands over what was printed and starts the output afresh.
    pub fn take_output(&mut self) -> (bytes: Vec<u8>)
        ensures
            bytes@ == old(self)@.output,
            final(self)@ == (Machine { output: Seq::empty(), ..old(self)@ }),
    {
        let mut bytes = Vec::new();
        std::mem::swap(&mut self.display, &mut bytes);
        bytes
    }

    /// Takes the oldest pending key, if there is one.
    pub fn take_key(&mut self) -> (key: Option<u8>)
        ensures
            match key {
                Some(k) => old(self)@.input.len() > 0 && k == old(self)@.input[0] && final(self)@
                    == old(self)@.take_key(),
                None => old(self)@.input.len() == 0 && final(self)@ == old(self)@,
            },
    {
        self.keyboard.pop_front()
    }

    /// One byte goes to the output.
    pub fn print_byte(&mut self, byte: u8)
        ensures
            final(self)@ == old(self)@.emit(byte),
    {
        self.display.push(byte);
    }
}

} // verus!
