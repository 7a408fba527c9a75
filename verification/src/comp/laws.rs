//! What holds of the processor whatever the program: the stack gives back
//! what was pushed, the flags follow the results, and an interrupt that the
//! PPU has raised is taken before the next instruction.

use vstd::prelude::*;
use crate::comp::bus::BusState;
use crate::comp::cpu::spec_high_byte;
use crate::comp::cpu::spec_low_byte;
use crate::comp::cpu::spec_word;
use crate::comp::cpu::AddressingMode;
use crate::comp::cpu::Halt;
use crate::comp::flags::lemma_with_sets_one_flag;
use crate::comp::flags::lemma_with_zn;
use crate::comp::flags::CpuFlags;
use crate::comp::opcodes::Mnemonic;
use crate::comp::semantics::spec_rotate_left;
use crate::comp::semantics::spec_rotate_right;
use crate::comp::semantics::spec_shift_left;
use crate::comp::semantics::spec_shift_right;
use crate::comp::semantics::spec_signed_overflow;
use crate::comp::semantics::spec_sum;
use crate::comp::semantics::CpuState;
use crate::comp::semantics::NMI_VECTOR;
use crate::comp::semantics::STACK;

verus! {

/// The number that a byte stands for when it is read as a signed one.
pub open spec fn signed(b: u8) -> int {
    if b < 128 {
        b as int
    } else {
        b - 256
    }
}

/// The overflow flag of an addition: it is set exactly when both operands
/// have the same sign and the sum has the other, which is exactly when the
/// signed sum does not fit in a byte.
pub proof fn lemma_adc_overflow(a: u8, m: u8, carry_in: u8)
    requires
        carry_in <= 1,
    ensures
        spec_signed_overflow(a, m, spec_sum(a, m, carry_in)) == ((a >= 128) == (m >= 128) && (
        spec_sum(a, m, carry_in) >= 128) != (a >= 128)),
        spec_signed_overflow(a, m, spec_sum(a, m, carry_in)) == !(-128 <= signed(a) + signed(m)
            + carry_in <= 127),
{
    let res = spec_sum(a, m, carry_in);
    assert(((a ^ res) & (m ^ res) & 0x80 != 0) == ((a >= 128) == (m >= 128) && (res >= 128) != (a
        >= 128))) by (bit_vector);
}

/// The overflow flag of a subtraction, which adds the complement of `m`: it
/// is set exactly when the operands have different signs and the result has
/// not the sign of `a`, which is exactly when the signed difference does not
/// fit in a byte.
pub proof fn lemma_sbc_overflow(a: u8, m: u8, carry_in: u8)
    requires
        carry_in <= 1,
    ensures
        spec_signed_overflow(a, m ^ 0xFF, spec_sum(a, m ^ 0xFF, carry_in)) == ((a >= 128) != (m
            >= 128) && (spec_sum(a, m ^ 0xFF, carry_in) >= 128) != (a >= 128)),
        spec_signed_overflow(a, m ^ 0xFF, spec_sum(a, m ^ 0xFF, carry_in)) == !(-128 <= signed(a)
            - signed(m) - (1 - carry_in) <= 127),
{
    let n = m ^ 0xFF;
    assert(n == 255 - m) by (bit_vector)
        requires
            n == m ^ 0xFF,
    ;
    lemma_adc_overflow(a, n, carry_in);
}

/// ADC and SBC as instructions: after either, V tells the signed overflow of
/// the sum, C its carry out of bit 7, Z whether A is zero, and N is bit 7 of
/// A.
pub proof fn lemma_add_to_a_flags(s: CpuState, m: u8)
    ensures
        s.add_to_a(m).a == spec_sum(s.a, m, s.status.carry_in()),
        s.add_to_a(m).status.has(CpuFlags::OVERFLOW) == spec_signed_overflow(
            s.a,
            m,
            s.add_to_a(m).a,
        ),
        s.add_to_a(m).status.has(CpuFlags::CARRY) == (s.a + m + s.status.carry_in() > 0xFF),
        s.add_to_a(m).status.has(CpuFlags::ZERO) == (s.add_to_a(m).a == 0),
        s.add_to_a(m).status.has(CpuFlags::NEGATIVE) == (s.add_to_a(m).a & 0b1000_0000 != 0),
{
    reveal(CpuState::add_to_a);
    let carry_in = s.status.carry_in();
    let res = spec_sum(s.a, m, carry_in);
    let p1 = s.status.with(CpuFlags::CARRY, s.a + m + carry_in > 0xFF);
    let p2 = p1.with(CpuFlags::OVERFLOW, spec_signed_overflow(s.a, m, res));
    lemma_with_sets_one_flag(s.status, CpuFlags::CARRY, s.a + m + carry_in > 0xFF, CpuFlags::CARRY);
    lemma_with_sets_one_flag(
        p1,
        CpuFlags::OVERFLOW,
        spec_signed_overflow(s.a, m, res),
        CpuFlags::CARRY,
    );
    lemma_with_sets_one_flag(
        p1,
        CpuFlags::OVERFLOW,
        spec_signed_overflow(s.a, m, res),
        CpuFlags::OVERFLOW,
    );
    lemma_with_zn(p2, res, CpuFlags::CARRY);
    lemma_with_zn(p2, res, CpuFlags::OVERFLOW);
}

/// Whether an instruction leaves its result in A: the additions, the logic
/// operations, the load of A, the pull of A and the transfers into A.
pub open spec fn writes_a(mnemonic: Mnemonic) -> bool {
    match mnemonic {
        Mnemonic::Adc
        | Mnemonic::Sbc
        | Mnemonic::And
        | Mnemonic::Ora
        | Mnemonic::Eor
        | Mnemonic::Lda
        | Mnemonic::Pla
        | Mnemonic::Txa
        | Mnemonic::Tya => true,
        _ => false,
    }
}

/// Every instruction that leaves its result in A sets Z exactly when that
/// result is zero and N exactly when its bit 7 is 1.
pub proof fn lemma_flags_follow_a(s: CpuState, mnemonic: Mnemonic, mode: AddressingMode)
    requires
        writes_a(mnemonic),
    ensures
        s.perform(mnemonic, mode).status.has(CpuFlags::ZERO) == (s.perform(mnemonic, mode).a == 0),
        s.perform(mnemonic, mode).status.has(CpuFlags::NEGATIVE) == (s.perform(mnemonic, mode).a
            & 0b1000_0000 != 0),
{
    reveal(CpuState::perform);
    reveal(CpuState::adc);
    reveal(CpuState::sbc);
    reveal(CpuState::and);
    reveal(CpuState::ora);
    reveal(CpuState::eor);
    reveal(CpuState::lda);
    reveal(CpuState::pla);
    let (m, crossed, t) = s.operand(mode);
    lemma_add_to_a_flags(t, m);
    lemma_add_to_a_flags(t, m ^ 0xFF);
    lemma_with_zn(t.status, t.a & m, CpuFlags::CARRY);
    lemma_with_zn(t.status, m | t.a, CpuFlags::CARRY);
    lemma_with_zn(t.status, m ^ t.a, CpuFlags::CARRY);
    lemma_with_zn(t.status, m, CpuFlags::CARRY);
    lemma_with_zn(s.pop().1.status, s.pop().0, CpuFlags::CARRY);
    lemma_with_zn(s.status, s.x, CpuFlags::CARRY);
    lemma_with_zn(s.status, s.y, CpuFlags::CARRY);
}

/// Every instruction that leaves its result in X or Y sets Z and N by that
/// result.
pub proof fn lemma_flags_follow_index(s: CpuState, v: u8)
    ensures
        s.set_x(v).x == v,
        s.set_x(v).status.has(CpuFlags::ZERO) == (v == 0),
        s.set_x(v).status.has(CpuFlags::NEGATIVE) == (v & 0b1000_0000 != 0),
        s.set_y(v).y == v,
        s.set_y(v).status.has(CpuFlags::ZERO) == (v == 0),
        s.set_y(v).status.has(CpuFlags::NEGATIVE) == (v & 0b1000_0000 != 0),
{
    lemma_with_zn(s.status, v, CpuFlags::CARRY);
}

/// A shift or a rotation, on memory or on A, sets Z exactly when its result
/// is zero, N exactly when bit 7 of its result is 1, and C to the bit that
/// fell out.
pub proof fn lemma_flags_follow_shift(s: CpuState, addr: u16, res: u8, carry: bool)
    ensures
        s.shifted(addr, res, carry).status.has(CpuFlags::ZERO) == (res == 0),
        s.shifted(addr, res, carry).status.has(CpuFlags::NEGATIVE) == (res & 0b1000_0000 != 0),
        s.shifted(addr, res, carry).status.has(CpuFlags::CARRY) == carry,
        s.shifted_acc(res, carry).a == res,
        s.shifted_acc(res, carry).status.has(CpuFlags::ZERO) == (res == 0),
        s.shifted_acc(res, carry).status.has(CpuFlags::NEGATIVE) == (res & 0b1000_0000 != 0),
        s.shifted_acc(res, carry).status.has(CpuFlags::CARRY) == carry,
{
    let p = s.status.with(CpuFlags::CARRY, carry);
    lemma_with_sets_one_flag(s.status, CpuFlags::CARRY, carry, CpuFlags::CARRY);
    lemma_with_zn(p, res, CpuFlags::CARRY);
}

/// A shift, a rotation, an increment or a decrement of memory sets Z
/// exactly when the byte that it writes is zero and N exactly when bit 7 of
/// that byte is 1; the shifts and rotations set C to the bit that fell out.
pub proof fn lemma_flags_follow_memory(s: CpuState, mode: AddressingMode)
    ensures
        ({
            let m = s.operand(mode).0;
            let c = s.status.carry_in();
            &&& s.asl(mode).status == s.status.with(CpuFlags::CARRY, m >= 128).with_zn(
                spec_shift_left(m),
            )
            &&& s.lsr(mode).status == s.status.with(CpuFlags::CARRY, m % 2 == 1).with_zn(
                spec_shift_right(m),
            )
            &&& s.rol(mode).status == s.status.with(CpuFlags::CARRY, m >= 128).with_zn(
                spec_rotate_left(m, c),
            )
            &&& s.ror(mode).status == s.status.with(CpuFlags::CARRY, m % 2 == 1).with_zn(
                spec_rotate_right(m, c),
            )
            &&& s.inc(mode).status == s.status.with_zn(m.wrapping_add(1))
            &&& s.dec(mode).status == s.status.with_zn(m.wrapping_sub(1))
        }),
        forall|p: CpuFlags, res: u8| #[trigger]
            p.with_zn(res).has(CpuFlags::ZERO) == (res == 0) && p.with_zn(res).has(
                CpuFlags::NEGATIVE,
            ) == (res & 0b1000_0000 != 0),
{
    reveal(CpuState::operand);
    reveal(CpuState::operand_address);
    reveal(CpuState::asl);
    reveal(CpuState::lsr);
    reveal(CpuState::rol);
    reveal(CpuState::ror);
    reveal(CpuState::inc);
    reveal(CpuState::dec);
    assert forall|p: CpuFlags, res: u8| #[trigger]
        p.with_zn(res).has(CpuFlags::ZERO) == (res == 0) && p.with_zn(res).has(
            CpuFlags::NEGATIVE,
        ) == (res & 0b1000_0000 != 0) by {
        lemma_with_zn(p, res, CpuFlags::CARRY);
    }
}

/// A comparison sets C exactly when the register is at least the operand, Z
/// exactly when they are equal, and N to bit 7 of their difference.
pub proof fn lemma_flags_follow_comparison(s: CpuState, mode: AddressingMode, reg: u8)
    ensures
        ({
            let m = s.operand(mode).0;
            let after = s.compare(mode, reg).status;
            &&& after.has(CpuFlags::CARRY) == (reg >= m)
            &&& after.has(CpuFlags::ZERO) == (reg == m)
            &&& after.has(CpuFlags::NEGATIVE) == (reg.wrapping_sub(m) & 0b1000_0000 != 0)
        }),
{
    reveal(CpuState::compare);
    let (m, crossed, t) = s.operand(mode);
    let p = t.status.with(CpuFlags::CARRY, m <= reg);
    lemma_with_sets_one_flag(t.status, CpuFlags::CARRY, m <= reg, CpuFlags::CARRY);
    lemma_with_zn(p, reg.wrapping_sub(m), CpuFlags::CARRY);
}

/// What is pushed is what is popped: after a push of `b`, a pop returns `b`
/// and leaves the stack pointer where it was before the push. Nothing else
/// has changed but the byte of stack memory that holds `b`.
pub proof fn lemma_push_pop(s: CpuState, b: u8)
    requires
        s.wf(),
    ensures
        s.push(b).pop().0 == b,
        s.push(b).pop().1.sp == s.sp,
        s.push(b).pop().1 == s.write((STACK + s.sp) as u16, b),
{
    reveal(BusState::wf);
    reveal(BusState::after_write);
    reveal(BusState::read_value);
    reveal(BusState::after_read);
}

/// A word that is pushed is the word that is popped, and the stack pointer
/// is back where it was.
pub proof fn lemma_push_pop_u16(s: CpuState, w: u16)
    requires
        s.wf(),
    ensures
        s.push_u16(w).pop_u16().0 == w,
        s.push_u16(w).pop_u16().1.sp == s.sp,
{
    reveal(BusState::wf);
    reveal(BusState::after_write);
    reveal(BusState::read_value);
    reveal(BusState::after_read);
}

/// A subroutine returns behind its call: RTS after JSR leaves the program
/// counter behind the three bytes of the JSR and the stack pointer where it
/// was.
pub proof fn lemma_jsr_rts(s: CpuState)
    requires
        s.wf(),
    ensures
        s.jsr().rts().pc == s.pc.wrapping_add(2),
        s.jsr().rts().sp == s.sp,
{
    reveal(CpuState::jsr);
    reveal(CpuState::rts);
    reveal(BusState::wf);
    reveal(BusState::after_write);
    reveal(BusState::read_value);
    reveal(BusState::after_read);
}

/// What PHP pushes, PLP pulls, but for B, which PLP leaves clear, and the
/// unused bit, which it leaves set; the stack pointer is back where it was.
pub proof fn lemma_php_plp(s: CpuState)
    requires
        s.wf(),
    ensures
        s.php().plp().status == s.status.with(CpuFlags::BREAK, false).with(CpuFlags::UNUSED, true),
        s.php().plp().sp == s.sp,
{
    reveal(CpuState::php);
    reveal(CpuState::plp);
    lemma_push_pop(s, s.status.bits | CpuFlags::BREAK | CpuFlags::UNUSED);
    let p = s.status.bits;
    assert((((p | 0b0001_0000u8) | 0b0010_0000u8) & !0b0001_0000u8) | 0b0010_0000u8 == (p
        & !0b0001_0000u8) | 0b0010_0000u8) by (bit_vector);
}

/// An interrupt that the PPU has raised is taken before the next
/// instruction: the step pushes the program counter and the status (B
/// clear, the unused bit set), disables interrupts, and goes to the address
/// that the cartridge holds at `$FFFA`.
pub proof fn lemma_nmi_is_taken(s: CpuState)
    requires
        s.wf(),
        s.has_budget(),
        s.bus.ppu.nmi_pending,
    ensures
        s.step() == (s.service_nmi(), None::<Halt>),
        s.service_nmi().pc == spec_word(s.bus.prg_byte(NMI_VECTOR), s.bus.prg_byte(0xFFFB)),
        s.service_nmi().status == s.status.with(CpuFlags::INTERRUPT_DISABLE, true),
        s.service_nmi().sp == s.sp.wrapping_sub(3),
        s.service_nmi().bus.read_value((STACK + s.sp) as u16) == spec_high_byte(s.pc),
        s.service_nmi().bus.read_value((STACK + s.sp.wrapping_sub(1)) as u16)
            == spec_low_byte(s.pc),
        s.service_nmi().bus.read_value((STACK + s.sp.wrapping_sub(2)) as u16) == s.status.with(
            CpuFlags::BREAK,
            false,
        ).with(CpuFlags::UNUSED, true).bits,
{
    reveal(CpuState::step);
    reveal(CpuState::service_nmi);
    reveal(CpuState::interrupt);
    reveal(BusState::wf);
    reveal(BusState::after_write);
    reveal(BusState::read_value);
    reveal(BusState::after_read);
    reveal(BusState::prg_byte);
    reveal(BusState::tick);
    reveal(BusState::settle_dma);
}

} // verus!
