//! The sixteen operations: how an instruction word is taken apart and what
//! each operation does to the machine.

use vstd::prelude::*;
use crate::laws::lemma_flags_follow_destination;
use crate::machine::{Machine, wrap_add, PC};
use crate::register::{CondFlag, Register};
use crate::traps::Trap;
use crate::utils::{sign_extend, spec_sign_extend};
use crate::vm::{VM, VMError};

verus! {

#[derive(Clone, Copy, Debug, PartialEq, Eq)]
pub enum OpCode {
    /// Conditional branch.
    BR,
    /// Addition.
    ADD,
    /// Load from an address relative to the program counter.
    LD,
    /// Store to an address relative to the program counter.
    ST,
    /// Jump to a subroutine.
    JSR,
    /// Bitwise and.
    AND,
    /// Load from a base register plus offset.
    LDR,
    /// Store to a base register plus offset.
    STR,
    /// Return from interrupt; does nothing here.
    RTI,
    /// Bitwise complement.
    NOT,
    /// Load through a pointer in memory.
    LDI,
    /// Store through a pointer in memory.
    STI,
    /// Jump to the address in a register.
    JMP,
    /// Reserved; does nothing.
    RES,
    /// Load an address relative to the program counter.
    LEA,
    /// Call one of the machine's services.
    TRAP,
}

/// Bits 15..12: the operation.
pub open spec fn opcode_bits(raw: u16) -> u16 {
    raw / 4096
}

/// Bits 11..9: the destination register, the source of a store, or the
/// condition mask of a branch.
pub open spec fn dr(raw: u16) -> u16 {
    (raw / 512) % 8
}

/// Bits 8..6: the first source register or the base register.
pub open spec fn sr1(raw: u16) -> u16 {
    (raw / 64) % 8
}

/// Bits 2..0: the second source register.
pub open spec fn sr2(raw: u16) -> u16 {
    raw % 8
}

/// Bit 5: whether the second operand is an immediate.
pub open spec fn imm_flag(raw: u16) -> bool {
    (raw / 32) % 2 == 1
}

/// Bit 11: whether a subroutine jump carries an offset.
pub open spec fn long_flag(raw: u16) -> bool {
    (raw / 2048) % 2 == 1
}

/// Bits 4..0 as a signed number.
pub open spec fn imm5(raw: u16) -> u16 {
    spec_sign_extend(raw, 5)
}

/// Bits 5..0 as a signed number.
pub open spec fn offset6(raw: u16) -> u16 {
    spec_sign_extend(raw, 6)
}

/// Bits 8..0 as a signed number.
pub open spec fn pc9(raw: u16) -> u16 {
    spec_sign_extend(raw, 9)
}

/// Bits 10..0 as a signed number.
pub open spec fn pc11(raw: u16) -> u16 {
    spec_sign_extend(raw, 11)
}

/// The second operand of an addition or a bitwise and.
pub open spec fn operand(raw: u16, s: Machine) -> u16 {
    if imm_flag(raw) {
        imm5(raw)
    } else {
        s.reg(sr2(raw))
    }
}

/// The address that an instruction names relative to the program counter.
pub open spec fn pc_relative(raw: u16, s: Machine) -> u16 {
    wrap_add(s.pc(), pc9(raw))
}

/// The address that an instruction names relative to a base register.
pub open spec fn base_relative(raw: u16, s: Machine) -> u16 {
    wrap_add(s.reg(sr1(raw)), offset6(raw))
}

impl OpCode {
    pub open spec fn spec_code(self) -> u16 {
        match self {
            OpCode::BR => 0,
            OpCode::ADD => 1,
            OpCode::LD => 2,
            OpCode::ST => 3,
            OpCode::JSR => 4,
            OpCode::AND => 5,
            OpCode::LDR => 6,
            OpCode::STR => 7,
            OpCode::RTI => 8,
            OpCode::NOT => 9,
            OpCode::LDI => 10,
            OpCode::STI => 11,
            OpCode::JMP => 12,
            OpCode::RES => 13,
            OpCode::LEA => 14,
            OpCode::TRAP => 15,
        }
    }

    /// The four-bit number of the operation.
    #[verifier::when_used_as_spec(spec_code)]
    pub fn code(self) -> (c: u16)
        ensures
            c == self.spec_code(),
            c < 16,
    {
        match self {
            OpCode::BR => 0,
            OpCode::ADD => 1,
            OpCode::LD => 2,
            OpCode::ST => 3,
            OpCode::JSR => 4,
            OpCode::AND => 5,
            OpCode::LDR => 6,
            OpCode::STR => 7,
            OpCode::RTI => 8,
            OpCode::NOT => 9,
            OpCode::LDI => 10,
            OpCode::STI => 11,
            OpCode::JMP => 12,
            OpCode::RES => 13,
            OpCode::LEA => 14,
            OpCode::TRAP => 15,
        }
    }

    /// The operation that an instruction word names.
    pub open spec fn decode(raw: u16) -> OpCode {
        let c = opcode_bits(raw);
        if c == 0 {
            OpCode::BR
        } else if c == 1 {
            OpCode::ADD
        } else if c == 2 {
            OpCode::LD
        } else if c == 3 {
            OpCode::ST
        } else if c == 4 {
            OpCode::JSR
        } else if c == 5 {
            OpCode::AND
        } else if c == 6 {
            OpCode::LDR
        } else if c == 7 {
            OpCode::STR
        } else if c == 8 {
            OpCode::RTI
        } else if c == 9 {
            OpCode::NOT
        } else if c == 10 {
            OpCode::LDI
        } else if c == 11 {
            OpCode::STI
        } else if c == 12 {
            OpCode::JMP
        } else if c == 13 {
            OpCode::RES
        } else if c == 14 {
            OpCode::LEA
        } else {
            OpCode::TRAP
        }
    }

    /// Whether the operation writes a general register and so sets the
    /// condition register.
    pub open spec fn sets_flags(self) -> bool {
        self is ADD || self is AND || self is NOT || self is LD || self is LDI || self is LDR
            || self is LEA
    }

    /// Whether the operation may replace the program counter.
    pub open spec fn is_jump(self) -> bool {
        self is BR || self is JMP || self is JSR
    }

    /// Whether the operation succeeds. Only a trap can fail: on a service
    /// number that names nothing, or for want of a key.
    pub open spec fn outcome(self, raw: u16, s: Machine) -> Result<(), VMError> {
        if self is TRAP {
            match Trap::decode(raw) {
                Some(t) => t.outcome(s),
                None => Err(VMError::TrapDoesNotExist),
            }
        } else {
            Ok(())
        }
    }

    /// The machine after the operation, carried out with the fields of
    /// `raw` on a machine whose program counter already points past the
    /// instruction.
    pub open spec fn effect(self, raw: u16, s: Machine) -> Machine {
        match self {
            OpCode::BR => if s.cond() & dr(raw) != 0 {
                s.with_reg(PC, pc_relative(raw, s))
            } else {
                s
            },
            OpCode::ADD => s.load_reg(dr(raw), wrap_add(s.reg(sr1(raw)), operand(raw, s))),
            OpCode::AND => s.load_reg(dr(raw), s.reg(sr1(raw)) & operand(raw, s)),
            OpCode::NOT => s.load_reg(dr(raw), !s.reg(sr1(raw))),
            OpCode::LD => {
                let addr = pc_relative(raw, s);
                s.after_read(addr).load_reg(dr(raw), s.read_value(addr))
            },
            OpCode::LDI => {
                let addr = pc_relative(raw, s);
                let pointer = s.read_value(addr);
                let s1 = s.after_read(addr);
                s1.after_read(pointer).load_reg(dr(raw), s1.read_value(pointer))
            },
            OpCode::LDR => {
                let addr = base_relative(raw, s);
                s.after_read(addr).load_reg(dr(raw), s.read_value(addr))
            },
            OpCode::LEA => s.load_reg(dr(raw), pc_relative(raw, s)),
            OpCode::ST => s.write(pc_relative(raw, s), s.reg(dr(raw))),
            OpCode::STI => {
                let addr = pc_relative(raw, s);
                s.after_read(addr).write(s.read_value(addr), s.reg(dr(raw)))
            },
            OpCode::STR => s.write(base_relative(raw, s), s.reg(dr(raw))),
            OpCode::JMP => s.with_reg(PC, s.reg(sr1(raw))),
            OpCode::JSR => {
                let linked = s.with_reg(7, s.pc());
                if long_flag(raw) {
                    linked.with_reg(PC, wrap_add(s.pc(), pc11(raw)))
                } else {
                    linked.with_reg(PC, linked.reg(sr1(raw)))
                }
            },
            OpCode::RTI => s,
            OpCode::RES => s,
            OpCode::TRAP => {
                let linked = s.with_reg(7, s.pc());
                match Trap::decode(raw) {
                    Some(t) => t.effect(linked),
                    None => linked,
                }
            },
        }
    }

    /// Reads the operation from the top four bits of an instruction word.
    pub fn from_raw_instr(raw_instr: u16) -> (op: OpCode)
        ensures
            op == OpCode::decode(raw_instr),
            op.code() == opcode_bits(raw_instr),
    {
        let c = raw_instr >> 12;
        assert(raw_instr >> 12 == raw_instr / 4096) by (bit_vector);
        match c {
            0 => OpCode::BR,
            1 => OpCode::ADD,
            2 => OpCode::LD,
            3 => OpCode::ST,
            4 => OpCode::JSR,
            5 => OpCode::AND,
            6 => OpCode::LDR,
            7 => OpCode::STR,
            8 => OpCode::RTI,
            9 => OpCode::NOT,
            10 => OpCode::LDI,
            11 => OpCode::STI,
            12 => OpCode::JMP,
            13 => OpCode::RES,
            14 => OpCode::LEA,
            _ => OpCode::TRAP,
        }
    }

    /// Carries out the operation on `vm` with the fields of `raw_instr`.
    /// The program counter of `vm` must already point past the instruction.
    pub fn execute(&self, raw_instr: u16, vm: &mut VM) -> (r: Result<(), VMError>)
        ensures
            final(vm)@ == self.effect(raw_instr, old(vm)@),
            r == self.outcome(raw_instr, old(vm)@),
            !(r matches Err(VMError::OPCodeDoesNotExist)),
            self.sets_flags() ==> final(vm)@.cond() == CondFlag::of(
                final(vm)@.reg(dr(raw_instr)),
            ).bits(),
    {
        proof {
            vm.lemma_view_wf();
            if self.sets_flags() {
                lemma_flags_follow_destination(*self, raw_instr, vm@);
            }
        }
        match self {
            OpCode::BR => {
                let cond_flag = field_dr(raw_instr);
                let pc_offset = sign_extend(raw_instr, 9);
                let pc = vm.get_register(Register::PC.index());
                if vm.get_register(Register::COND.index()) & cond_flag != 0 {
                    vm.set_register(Register::PC.index(), pc.wrapping_add(pc_offset));
                }
                Ok(())
            },
            OpCode::ADD => {
                let r0 = field_dr(raw_instr);
                let r1 = field_sr1(raw_instr);
                if field_imm_flag(raw_instr) {
                    let imm5 = sign_extend(raw_instr, 5);
                    let r1_val = vm.get_register(r1);
                    vm.set_register(r0, r1_val.wrapping_add(imm5));
                } else {
                    let r2 = field_sr2(raw_instr);
                    let r1_val = vm.get_register(r1);
                    let r2_val = vm.get_register(r2);
                    vm.set_register(r0, r1_val.wrapping_add(r2_val));
                }
                vm.set_cond_flags(r0);
                Ok(())
            },
            OpCode::LD => {
                let r0 = field_dr(raw_instr);
                let pc_offset = sign_extend(raw_instr, 9);
                let mem_addr = vm.get_register(Register::PC.index()).wrapping_add(pc_offset);
                let mem_val = vm.read_from_memory(mem_addr);
                vm.set_register(r0, mem_val);
                vm.set_cond_flags(r0);
                Ok(())
            },
            OpCode::ST => {
                let r0 = field_dr(raw_instr);
                let pc_offset = sign_extend(raw_instr, 9);
                let mem_addr = vm.get_register(Register::PC.index()).wrapping_add(pc_offset);
                let r0_val = vm.get_register(r0);
                vm.write_to_memory(mem_addr, r0_val);
                Ok(())
            },
            OpCode::JSR => {
                let r1 = field_sr1(raw_instr);
                let old_pc = vm.get_register(Register::PC.index());
                vm.set_register(Register::R7.index(), old_pc);
                if field_long_flag(raw_instr) {
                    let long_pc_offset = sign_extend(raw_instr, 11);
                    vm.set_register(Register::PC.index(), old_pc.wrapping_add(long_pc_offset));
                } else {
                    let r1_val = vm.get_register(r1);
                    vm.set_register(Register::PC.index(), r1_val);
                }
                Ok(())
            },
            OpCode::AND => {
                let r0 = field_dr(raw_instr);
                let r1 = field_sr1(raw_instr);
                if field_imm_flag(raw_instr) {
                    let imm5 = sign_extend(raw_instr, 5);
                    let r1_val = vm.get_register(r1);
                    vm.set_register(r0, r1_val & imm5);
                } else {
                    let r2 = field_sr2(raw_instr);
                    let r1_val = vm.get_register(r1);
                    let r2_val = vm.get_register(r2);
                    vm.set_register(r0, r1_val & r2_val);
                }
                vm.set_cond_flags(r0);
                Ok(())
            },
            OpCode::LDR => {
                let r0 = field_dr(raw_instr);
                let base_r = field_sr1(raw_instr);
                let offset = sign_extend(raw_instr, 6);
                let base_addr = vm.get_register(base_r);
                let mem_addr = base_addr.wrapping_add(offset);
                let mem_val = vm.read_from_memory(mem_addr);
                vm.set_register(r0, mem_val);
                vm.set_cond_flags(r0);
                Ok(())
            },
            OpCode::STR => {
                let r0 = field_dr(raw_instr);
                let base_r = field_sr1(raw_instr);
                let offset = sign_extend(raw_instr, 6);
                let base_addr = vm.get_register(base_r);
                let r0_val = vm.get_register(r0);
                let mem_addr = base_addr.wrapping_add(offset);
                vm.write_to_memory(mem_addr, r0_val);
                Ok(())
            },
            OpCode::RTI => Ok(()),
            OpCode::NOT => {
                let r0 = field_dr(raw_instr);
                let r1 = field_sr1(raw_instr);
                let r1_val = vm.get_register(r1);
                vm.set_register(r0, !r1_val);
                vm.set_cond_flags(r0);
                Ok(())
            },
            OpCode::LDI => {
                let r0 = field_dr(raw_instr);
                let pc_offset = sign_extend(raw_instr, 9);
                let mem_addr = vm.get_register(Register::PC.index()).wrapping_add(pc_offset);
                let indirect_addr = vm.read_from_memory(mem_addr);
                let mem_val = vm.read_from_memory(indirect_addr);
                vm.set_register(r0, mem_val);
                vm.set_cond_flags(r0);
                Ok(())
            },
            OpCode::STI => {
                let r0 = field_dr(raw_instr);
                let pc_offset = sign_extend(raw_instr, 9);
                let mem_addr = vm.get_register(Register::PC.index()).wrapping_add(pc_offset);
                let r0_val = vm.get_register(r0);
                let indirect_addr = vm.read_from_memory(mem_addr);
                vm.write_to_memory(indirect_addr, r0_val);
                Ok(())
            },
            OpCode::JMP => {
                let base_r = field_sr1(raw_instr);
                let base_addr = vm.get_register(base_r);
                vm.set_register(Register::PC.index(), base_addr);
                Ok(())
            },
            OpCode::RES => Ok(()),
            OpCode::LEA => {
                let r0 = field_dr(raw_instr);
                let pc_offset = sign_extend(raw_instr, 9);
                let val = vm.get_register(Register::PC.index()).wrapping_add(pc_offset);
                vm.set_register(r0, val);
                vm.set_cond_flags(r0);
                Ok(())
            },
            OpCode::TRAP => {
                let pc = vm.get_register(Register::PC.index());
                vm.set_register(Register::R7.index(), pc);
                match Trap::from_raw_intr(raw_instr) {
                    Ok(trap) => trap.execute(vm),
                    Err(e) => Err(e),
                }
            },
        }
    }
}

fn field_dr(raw: u16) -> (r: u16)
    ensures
        r == dr(raw),
        r < 8,
{
    assert((raw >> 9) & 0x7 == (raw / 512) % 8) by (bit_vector);
    (raw >> 9) & 0x7
}

fn field_sr1(raw: u16) -> (r: u16)
    ensures
        r == sr1(raw),
        r < 8,
{
    assert((raw >> 6) & 0x7 == (raw / 64) % 8) by (bit_vector);
    (raw >> 6) & 0x7
}

fn field_sr2(raw: u16) -> (r: u16)
    ensures
        r == sr2(raw),
        r < 8,
{
    assert(raw & 0x7 == raw % 8) by (bit_vector);
    raw & 0x7
}

fn field_imm_flag(raw: u16) -> (b: bool)
    ensures
        b == imm_flag(raw),
{
    assert((raw >> 5) & 0x1 == (raw / 32) % 2) by (bit_vector);
    (raw >> 5) & 0x1 == 1
}

fn field_long_flag(raw: u16) -> (b: bool)
    ensures
        b == long_flag(raw),
{
    assert((raw >> 11) & 0x1 == (raw / 2048) % 2) by (bit_vector);
    (raw >> 11) & 0x1 == 1
}

} // verus!
