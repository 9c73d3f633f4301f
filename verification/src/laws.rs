//! What holds of the instruction set on every machine.

use vstd::prelude::*;
use vstd::arithmetic::power2::{pow2, lemma2_to64, lemma_pow2_strictly_increases};
use crate::instructions::{OpCode, dr, sr1, pc9, pc_relative, base_relative};
use crate::machine::{Machine, wrap_add, KBSR, PC};
use crate::register::CondFlag;
use crate::traps::{Trap, puts, putsp, emit_packed};
use crate::utils::{signed_value, spec_sign_extend, word_of};

verus! {

/// A field of `n` bits holds a number from -2^(n-1) up to 2^(n-1) - 1.
pub proof fn lemma_signed_value_range(x: u16, n: nat)
    requires
        1 <= n <= 16,
    ensures
        -pow2((n - 1) as nat) <= signed_value(x, n) < pow2((n - 1) as nat),
        2 * pow2((n - 1) as nat) == pow2(n),
        pow2(n) <= 0x10000,
{
    lemma2_to64();
    vstd::arithmetic::power2::lemma_pow2_unfold(n);
    if n < 16 {
        lemma_pow2_strictly_increases(n, 16);
    }
}

/// Sign extension changes nothing once the field is the whole word, so
/// extending an extended value again gives the same word.
pub proof fn lemma_sign_extend_idempotent(x: u16, n: nat)
    requires
        1 <= n <= 16,
    ensures
        spec_sign_extend(spec_sign_extend(x, n), 16) == spec_sign_extend(x, n),
{
    lemma_sign_extend_full_width(spec_sign_extend(x, n));
}

/// A whole word is its own sign extension.
pub proof fn lemma_sign_extend_full_width(x: u16)
    ensures
        spec_sign_extend(x, 16) == x,
{
    lemma2_to64();
}

/// The bits above a sign-extended field are copies of its top bit: all
/// clear for a number that is not negative, all set for a negative one.
pub proof fn lemma_sign_extend_high_bits(x: u16, n: nat)
    requires
        1 <= n <= 16,
    ensures
        signed_value(x, n) >= 0 ==> spec_sign_extend(x, n) == signed_value(x, n),
        signed_value(x, n) < 0 ==> spec_sign_extend(x, n) == 0x10000 + signed_value(x, n),
{
    lemma_signed_value_range(x, n);
    lemma2_to64();
    let v = signed_value(x, n);
    if v >= 0 {
        vstd::arithmetic::div_mod::lemma_small_mod(v as nat, 0x10000);
    } else {
        vstd::arithmetic::div_mod::lemma_fundamental_div_mod_converse(v, 0x10000, -1, 0x10000 + v);
    }
}

/// Adding a sign-extended field to a word is adding the signed number
/// and keeping the result modulo 2^16.
pub proof fn lemma_wrap_add_signed(a: u16, x: u16, n: nat)
    requires
        1 <= n <= 16,
    ensures
        wrap_add(a, spec_sign_extend(x, n)) == word_of(a + signed_value(x, n)),
{
    lemma_sign_extend_high_bits(x, n);
    let v = signed_value(x, n);
    if v < 0 {
        vstd::arithmetic::div_mod::lemma_mod_add_multiples_vanish(a + v, 0x10000);
    }
}

/// Every operation leaves the machine with ten registers and 65,536 words.
pub proof fn lemma_effect_keeps_shape(op: OpCode, raw: u16, s: Machine)
    requires
        s.wf(),
    ensures
        op.effect(raw, s).wf(),
{
    if op is TRAP {
        let linked = s.with_reg(7, s.pc());
        match Trap::decode(raw) {
            Some(t) => {
                lemma_trap_keeps_shape(t, linked);
            },
            None => {},
        }
    }
}

/// Every service leaves the machine with ten registers and 65,536 words,
/// and touches no register but R0.
pub proof fn lemma_trap_keeps_shape(t: Trap, s: Machine)
    requires
        s.wf(),
    ensures
        t.effect(s).wf(),
        forall|r: u16| 0 < r < 10 ==> t.effect(s).reg(r) == s.reg(r),
{
    match t {
        Trap::PUTS => {
            lemma_puts_keeps_registers(s, s.reg(0));
        },
        Trap::PUTSP => {
            lemma_putsp_keeps_registers(s, s.reg(0));
        },
        _ => {},
    }
}

/// Printing a string changes no register and does not halt the machine.
pub proof fn lemma_puts_keeps_registers(s: Machine, addr: u16)
    requires
        s.wf(),
    ensures
        puts(s, addr).wf(),
        puts(s, addr).regs == s.regs,
        puts(s, addr).halted == s.halted,
    decreases s.input.len(), crate::machine::cells_before_status(addr),
{
    let word = s.read_value(addr);
    let read = s.after_read(addr);
    if word != 0 {
        lemma_puts_keeps_registers(read.emit(crate::machine::low_byte(word)), wrap_add(addr, 1));
    }
}

/// Printing a packed string changes no register and does not halt the
/// machine.
pub proof fn lemma_putsp_keeps_registers(s: Machine, addr: u16)
    requires
        s.wf(),
    ensures
        putsp(s, addr).wf(),
        putsp(s, addr).regs == s.regs,
        putsp(s, addr).halted == s.halted,
    decreases s.input.len(), crate::machine::cells_before_status(addr),
{
    let word = s.read_value(addr);
    let read = s.after_read(addr);
    if word != 0 {
        lemma_putsp_keeps_registers(emit_packed(read, word), wrap_add(addr, 1));
    }
}

/// The halt flag goes up only through the `HALT` service, and nothing takes
/// it down.
pub proof fn lemma_only_halt_halts(op: OpCode, raw: u16, s: Machine)
    requires
        s.wf(),
    ensures
        op.effect(raw, s).halted == (s.halted || (op is TRAP && Trap::decode(raw) == Some(
            Trap::HALT,
        ))),
{
    if op is TRAP {
        let linked = s.with_reg(7, s.pc());
        lemma_puts_keeps_registers(linked, linked.reg(0));
        lemma_putsp_keeps_registers(linked, linked.reg(0));
    }
}

/// After an operation that writes a general register, the condition
/// register holds exactly one of the three flags, and it is the sign of
/// the value that the destination register now holds.
pub proof fn lemma_flags_follow_destination(op: OpCode, raw: u16, s: Machine)
    requires
        s.wf(),
        op.sets_flags(),
    ensures
        ({
            let t = op.effect(raw, s);
            &&& t.cond() == CondFlag::of(t.reg(dr(raw))).bits()
            &&& (t.cond() == 4 || t.cond() == 2 || t.cond() == 1)
            &&& (t.cond() == 4 <==> t.reg(dr(raw)) >= 0x8000)
            &&& (t.cond() == 2 <==> t.reg(dr(raw)) == 0)
            &&& (t.cond() == 1 <==> 0 < t.reg(dr(raw)) < 0x8000)
        }),
{
}

/// A cycle moves the program counter on by one word before the operation
/// is carried out, once and only once: after an operation that is no jump
/// the counter stands one word further, and a jump works from the counter
/// that was already moved on.
pub proof fn lemma_step_moves_pc_once(s: Machine)
    requires
        s.wf(),
    ensures
        s.advanced().pc() == wrap_add(s.pc(), 1),
        s.step() == OpCode::decode(s.fetched()).effect(s.fetched(), s.advanced()),
        !OpCode::decode(s.fetched()).is_jump() ==> s.step().pc() == wrap_add(s.pc(), 1),
        OpCode::decode(s.fetched()) is BR && s.cond() & dr(s.fetched()) != 0 ==> s.step().pc()
            == wrap_add(wrap_add(s.pc(), 1), pc9(s.fetched())),
        OpCode::decode(s.fetched()) is BR && s.cond() & dr(s.fetched()) == 0 ==> s.step().pc()
            == wrap_add(s.pc(), 1),
        OpCode::decode(s.fetched()) is JSR ==> s.step().reg(7) == wrap_add(s.pc(), 1),
{
    if !OpCode::decode(s.fetched()).is_jump() {
        lemma_effect_keeps_pc(OpCode::decode(s.fetched()), s.fetched(), s.advanced());
    }
}

/// Only a jump changes the program counter.
pub proof fn lemma_effect_keeps_pc(op: OpCode, raw: u16, s: Machine)
    requires
        s.wf(),
        !op.is_jump(),
    ensures
        op.effect(raw, s).pc() == s.pc(),
{
    match op {
        OpCode::TRAP => {
            let linked = s.with_reg(7, s.pc());
            match Trap::decode(raw) {
                Some(t) => {
                    lemma_trap_keeps_shape(t, linked);
                    assert(t.effect(linked).reg(PC) == linked.reg(PC));
                },
                None => {},
            }
        },
        _ => {},
    }
}

/// A store through a pointer followed by a load through the same pointer
/// word gives back the stored value, unless the pointer names the keyboard
/// status register, whose content every read replaces.
pub proof fn lemma_sti_ldi_round_trip(s: Machine, sti: u16, ldi: u16, pc_at_load: u16)
    requires
        s.wf(),
        ({
            let stored = OpCode::STI.effect(sti, s).with_reg(PC, pc_at_load);
            &&& stored.read_value(pc_relative(ldi, stored)) == s.read_value(pc_relative(sti, s))
            &&& s.read_value(pc_relative(sti, s)) != KBSR
        }),
    ensures
        ({
            let stored = OpCode::STI.effect(sti, s).with_reg(PC, pc_at_load);
            OpCode::LDI.effect(ldi, stored).reg(dr(ldi)) == s.reg(dr(sti))
        }),
{
}

/// `ADD R0,R0,#0` followed by `AND R0,R0,#0` leaves zero in R0 and the
/// zero flag in the condition register.
pub proof fn lemma_add_then_and_zero(s: Machine)
    requires
        s.wf(),
    ensures
        ({
            let t = OpCode::AND.effect(0x5020, OpCode::ADD.effect(0x1020, s));
            t.reg(0) == 0 && t.cond() == 2
        }),
{
    lemma2_to64();
    let s1 = OpCode::ADD.effect(0x1020, s);
    let x = s1.reg(0);
    assert(x & 0u16 == 0) by (bit_vector);
}

/// `NOT` writes the source with every bit flipped to the destination.
pub proof fn lemma_not_is_xor_ones(raw: u16, s: Machine)
    requires
        s.wf(),
    ensures
        OpCode::NOT.effect(raw, s).reg(dr(raw)) == 0xFFFFu16 ^ s.reg(sr1(raw)),
{
    let x = s.reg(sr1(raw));
    assert(!x == 0xFFFFu16 ^ x) by (bit_vector);
}

/// `LDR` reads the word at base plus signed offset, counted modulo 2^16:
/// a sum past the last address names a low address.
pub proof fn lemma_ldr_address_wraps(raw: u16, s: Machine)
    requires
        s.wf(),
    ensures
        base_relative(raw, s) == word_of(s.reg(sr1(raw)) + signed_value(raw, 6)),
        s.reg(sr1(raw)) + signed_value(raw, 6) >= 0x10000 ==> base_relative(raw, s) == s.reg(
            sr1(raw),
        ) + signed_value(raw, 6) - 0x10000,
        OpCode::LDR.effect(raw, s).reg(dr(raw)) == s.read_value(base_relative(raw, s)),
{
    lemma_wrap_add_signed(s.reg(sr1(raw)), raw, 6);
    lemma_signed_value_range(raw, 6);
    lemma2_to64();
}

/// A branch whose offset is -1 and whose condition holds leaves the
/// program counter on the branch itself.
pub proof fn lemma_branch_to_self(s: Machine)
    requires
        s.wf(),
        OpCode::decode(s.fetched()) is BR,
        s.fetched() % 512 == 511,
        s.cond() & dr(s.fetched()) != 0,
    ensures
        s.step().pc() == s.pc(),
{
    lemma2_to64();
    let raw = s.fetched();
    assert(signed_value(raw, 9) == -1);
    lemma_wrap_add_signed(wrap_add(s.pc(), 1), raw, 9);
}

/// `LEA` with offset zero writes the program counter, which already points
/// past the instruction, to the destination, and sets the flag of that
/// address: zero only for address zero, positive below 0x8000, negative
/// from 0x8000 up.
pub proof fn lemma_lea_offset_zero(raw: u16, s: Machine)
    requires
        s.wf(),
        raw % 512 == 0,
    ensures
        ({
            let t = OpCode::LEA.effect(raw, s);
            &&& t.reg(dr(raw)) == s.pc()
            &&& t.cond() == CondFlag::of(s.pc()).bits()
            &&& (t.cond() == 2 <==> s.pc() == 0)
            &&& (t.cond() == 1 <==> 0 < s.pc() < 0x8000)
            &&& (t.cond() == 4 <==> s.pc() >= 0x8000)
        }),
{
    lemma2_to64();
    assert(signed_value(raw, 9) == 0);
}

} // verus!
