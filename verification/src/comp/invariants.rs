//! The machine stays well formed: whatever the program does, the memories
//! keep their sizes and the PPU has run three dots for every CPU cycle, at
//! every instruction boundary.

use vstd::prelude::*;
use crate::comp::bus::lemma_access_keeps_wf;
use crate::comp::bus::lemma_frame_clock;
use crate::comp::bus::lemma_stall_bounded;
use crate::comp::bus::BusState;
use crate::comp::cpu::spec_branch_target;
use crate::comp::cpu::spec_high_byte;
use crate::comp::cpu::spec_low_byte;
use crate::comp::cpu::spec_next_addr;
use crate::comp::cpu::spec_same_page_next;
use crate::comp::cpu::AddressingMode;
use crate::comp::cpu::InterruptType;
use crate::comp::flags::CpuFlags;
use crate::comp::opcodes::lemma_decode_wf;
use crate::comp::opcodes::spec_decode;
use crate::comp::opcodes::Mnemonic;
use crate::comp::opcodes::OpCode;
use crate::comp::semantics::spec_rotate_left;
use crate::comp::semantics::spec_rotate_right;
use crate::comp::semantics::spec_shift_left;
use crate::comp::semantics::spec_shift_right;
use crate::comp::semantics::CpuState;
use crate::comp::semantics::STACK;
use crate::comp::semantics::STEP_CYCLES_MAX;

verus! {

impl CpuState {
    /// Whether this machine differs from `before` in nothing but what is on
    /// the bus, and is well formed with its clock where it was.
    pub open spec fn accessed(self, before: CpuState) -> bool {
        &&& self == (CpuState { bus: self.bus, ..before })
        &&& self.within(before, 0)
    }
}

/// A read takes no time, changes no register and keeps the machine well
/// formed.
pub proof fn lemma_read_keeps(s: CpuState, addr: u16)
    requires
        s.wf(),
    ensures
        s.read(addr).1.accessed(s),
{
    lemma_access_keeps_wf(s.bus, addr, 0);
}

/// A write takes no time, changes no register and keeps the machine well
/// formed.
pub proof fn lemma_write_keeps(s: CpuState, addr: u16, data: u8)
    requires
        s.wf(),
    ensures
        s.write(addr, data).accessed(s),
{
    lemma_access_keeps_wf(s.bus, addr, data);
}

/// Reading a word is two reads.
pub proof fn lemma_read_u16_keeps(s: CpuState, pos: u16)
    requires
        s.wf(),
    ensures
        s.read_u16(pos).1.accessed(s),
{
    lemma_read_keeps(s, pos);
    lemma_read_keeps(s.read(pos).1, spec_next_addr(pos));
}

/// A tick moves both clocks on by as many cycles and keeps the machine well
/// formed.
pub proof fn lemma_tick_keeps(s: CpuState, n: nat)
    requires
        s.wf(),
        s.bus.cycles + n <= usize::MAX,
    ensures
        s.tick(n).wf(),
        s.tick(n).bus.cycles == s.bus.cycles + n,
        s.tick(n).bus.dma_stall == s.bus.dma_stall,
{
    lemma_frame_clock(s.bus, n);
    reveal(BusState::tick);
}

/// Charging a sprite DMA moves the clocks on by the stall, which is at most
/// 514 cycles, and keeps the machine well formed.
pub proof fn lemma_settle_keeps(s: CpuState)
    requires
        s.wf(),
        s.bus.cycles + 514 <= usize::MAX,
    ensures
        s.settle_dma().wf(),
        s.bus.cycles <= s.settle_dma().bus.cycles <= s.bus.cycles + 514,
{
    lemma_stall_bounded(s.bus);
    lemma_frame_clock(s.bus, s.bus.dma_stall as nat);
    reveal(BusState::tick);
    reveal(BusState::settle_dma);
    reveal(BusState::wf);
}

/// Pushing and popping are a write and a read.
pub proof fn lemma_stack_keeps(s: CpuState, data: u8, word: u16)
    requires
        s.wf(),
    ensures
        s.push(data).within(s, 0),
        s.push_u16(word).within(s, 0),
        s.pop().1.within(s, 0),
        s.pop_u16().1.within(s, 0),
{
    lemma_write_keeps(s, (STACK + s.sp) as u16, data);
    let hi = spec_high_byte(word);
    let lo = spec_low_byte(word);
    lemma_write_keeps(s, (STACK + s.sp) as u16, hi);
    lemma_write_keeps(s.push(hi), (STACK + s.push(hi).sp) as u16, lo);
    let sp1 = s.sp.wrapping_add(1);
    let s1 = CpuState { sp: sp1, ..s };
    lemma_read_keeps(s1, (STACK + sp1) as u16);
    let t = s.pop().1;
    let sp2 = t.sp.wrapping_add(1);
    let t1 = CpuState { sp: sp2, ..t };
    lemma_read_keeps(t1, (STACK + sp2) as u16);
}

/// Finding an operand's address reads memory and does nothing else.
pub proof fn lemma_operand_address_keeps(s: CpuState, mode: AddressingMode)
    requires
        s.wf(),
    ensures
        s.operand_address(mode).2.accessed(s),
{
    reveal(CpuState::operand_address);
    lemma_read_keeps(s, s.pc);
    lemma_read_u16_keeps(s, s.pc);
    let (base, s1) = s.read(s.pc);
    match mode {
        AddressingMode::Indirect => {
            let (ptr, t1) = s.read_u16(s.pc);
            lemma_read_keeps(t1, ptr);
            lemma_read_keeps(t1.read(ptr).1, spec_same_page_next(ptr));
        },
        AddressingMode::Indirect_X => {
            let ptr = base.wrapping_add(s.x);
            lemma_read_keeps(s1, ptr as u16);
            lemma_read_keeps(s1.read(ptr as u16).1, ptr.wrapping_add(1) as u16);
        },
        AddressingMode::Indirect_Y => {
            lemma_read_keeps(s1, base as u16);
            lemma_read_keeps(s1.read(base as u16).1, base.wrapping_add(1) as u16);
        },
        _ => {},
    }
}

/// Fetching an operand reads memory and does nothing else.
pub proof fn lemma_operand_keeps(s: CpuState, mode: AddressingMode)
    requires
        s.wf(),
    ensures
        s.operand(mode).2.accessed(s),
{
    reveal(CpuState::operand);
    lemma_operand_address_keeps(s, mode);
    let (addr, crossed, t) = s.operand_address(mode);
    lemma_read_keeps(t, addr);
}

/// An instruction that reads its operand costs at most the cycle of a
/// crossed page and keeps the machine well formed.
pub proof fn lemma_reading_keeps(s: CpuState, mode: AddressingMode, reg: u8)
    requires
        s.wf(),
        s.bus.cycles + 1 <= usize::MAX,
    ensures
        s.lda(mode).within(s, 1),
        s.ldx(mode).within(s, 1),
        s.ldy(mode).within(s, 1),
        s.adc(mode).within(s, 1),
        s.sbc(mode).within(s, 1),
        s.and(mode).within(s, 1),
        s.ora(mode).within(s, 1),
        s.eor(mode).within(s, 1),
        s.compare(mode, reg).within(s, 1),
        s.bit(mode).within(s, 0),
{
    reveal(CpuState::lda);
    reveal(CpuState::ldx);
    reveal(CpuState::ldy);
    reveal(CpuState::adc);
    reveal(CpuState::sbc);
    reveal(CpuState::and);
    reveal(CpuState::ora);
    reveal(CpuState::eor);
    reveal(CpuState::compare);
    reveal(CpuState::bit);
    reveal(CpuState::add_to_a);
    lemma_operand_keeps(s, mode);
    let (m, crossed, t) = s.operand(mode);
    lemma_tick_keeps(t.set_a(m), 1);
    lemma_tick_keeps(t.set_x(m), 1);
    lemma_tick_keeps(t.set_y(m), 1);
    lemma_tick_keeps(t.add_to_a(m), 1);
    lemma_tick_keeps(t.add_to_a(m ^ 0xFF), 1);
    lemma_tick_keeps(t.set_a(t.a & m), 1);
    lemma_tick_keeps(t.set_a(m | t.a), 1);
    lemma_tick_keeps(t.set_a(m ^ t.a), 1);
    lemma_tick_keeps(
        CpuState {
            status: t.status.with(CpuFlags::CARRY, m <= reg).with_zn(
                reg.wrapping_sub(m),
            ),
            ..t
        },
        1,
    );
}

/// An instruction that writes to memory takes no time beyond its base
/// cycles and keeps the machine well formed.
pub proof fn lemma_writing_keeps(s: CpuState, mode: AddressingMode)
    requires
        s.wf(),
    ensures
        s.sta(mode).within(s, 0),
        s.stx(mode).within(s, 0),
        s.sty(mode).within(s, 0),
        s.asl(mode).within(s, 0),
        s.lsr(mode).within(s, 0),
        s.rol(mode).within(s, 0),
        s.ror(mode).within(s, 0),
        s.inc(mode).within(s, 0),
        s.dec(mode).within(s, 0),
{
    reveal(CpuState::sta);
    reveal(CpuState::stx);
    reveal(CpuState::sty);
    reveal(CpuState::asl);
    reveal(CpuState::lsr);
    reveal(CpuState::rol);
    reveal(CpuState::ror);
    reveal(CpuState::inc);
    reveal(CpuState::dec);
    lemma_operand_address_keeps(s, mode);
    let (addr, crossed, s1) = s.operand_address(mode);
    lemma_read_keeps(s1, addr);
    let (m, s2) = s1.read(addr);
    lemma_write_keeps(s1, addr, s.a);
    lemma_write_keeps(s1, addr, s.x);
    lemma_write_keeps(s1, addr, s.y);
    let carry_in = s2.status.carry_in();
    lemma_write_keeps(s2, addr, spec_shift_left(m));
    lemma_write_keeps(s2, addr, spec_shift_right(m));
    lemma_write_keeps(s2, addr, spec_rotate_left(m, carry_in));
    lemma_write_keeps(s2, addr, spec_rotate_right(m, carry_in));
    lemma_write_keeps(s2, addr, m.wrapping_add(1));
    lemma_write_keeps(s2, addr, m.wrapping_sub(1));
}

/// The stack instructions take no time beyond their base cycles and keep
/// the machine well formed.
pub proof fn lemma_stack_instructions_keep(s: CpuState)
    requires
        s.wf(),
    ensures
        s.pha().within(s, 0),
        s.php().within(s, 0),
        s.pla().within(s, 0),
        s.plp().within(s, 0),
        s.rti().within(s, 0),
        s.rts().within(s, 0),
        s.jsr().within(s, 0),
{
    reveal(CpuState::pha);
    reveal(CpuState::php);
    reveal(CpuState::pla);
    reveal(CpuState::plp);
    reveal(CpuState::rti);
    reveal(CpuState::rts);
    reveal(CpuState::jsr);
    lemma_stack_keeps(s, s.a, 0);
    lemma_stack_keeps(
        s,
        s.status.bits | CpuFlags::BREAK | CpuFlags::UNUSED,
        0,
    );
    lemma_stack_keeps(s, 0, s.pc.wrapping_add(1));
    lemma_stack_keeps(s.pop().1, 0, 0);
    let pushed = s.push_u16(s.pc.wrapping_add(1));
    lemma_read_u16_keeps(pushed, pushed.pc);
}

/// A jump takes no time beyond its base cycles, a branch at most two
/// cycles; both keep the machine well formed.
pub proof fn lemma_flow_keeps(s: CpuState, mode: AddressingMode, taken: bool)
    requires
        s.wf(),
        s.bus.cycles + 2 <= usize::MAX,
    ensures
        s.jmp(mode).within(s, 0),
        s.branch(taken).within(s, 2),
{
    reveal(CpuState::jmp);
    reveal(CpuState::branch);
    lemma_operand_address_keeps(s, mode);
    lemma_read_keeps(s, s.pc);
    let (offset, t) = s.read(s.pc);
    let next = s.pc.wrapping_add(1);
    let target = spec_branch_target(next, offset);
    lemma_tick_keeps(CpuState { pc: target, ..t }, 1);
    lemma_tick_keeps(CpuState { pc: target, ..t }, 2);
}

/// The entry into an interrupt takes its one or two cycles and keeps the
/// machine well formed.
pub proof fn lemma_interrupt_keeps(s: CpuState, kind: InterruptType)
    requires
        s.wf(),
        s.bus.cycles + 2 <= usize::MAX,
    ensures
        s.interrupt(kind).wf(),
        s.interrupt(kind).bus.cycles == s.bus.cycles + kind.spec_cpu_cycles(),
{
    reveal(CpuState::interrupt);
    let ret = s.pc.wrapping_add(kind.spec_return_offset());
    lemma_stack_keeps(s, 0, ret);
    let s1 = s.push_u16(ret);
    let p = s.status.with(CpuFlags::BREAK, kind.spec_b_flag()).with(
        CpuFlags::UNUSED,
        true,
    ).bits;
    lemma_stack_keeps(s1, p, 0);
    let s2 = s1.push(p).flag(CpuFlags::INTERRUPT_DISABLE, true);
    lemma_tick_keeps(s2, kind.spec_cpu_cycles() as nat);
    lemma_read_u16_keeps(s2.tick(kind.spec_cpu_cycles() as nat), kind.spec_vector_addr());
}

/// Whatever the instruction, carrying it out costs at most two cycles
/// beyond its base cycles and keeps the machine well formed.
pub proof fn lemma_perform_keeps(s: CpuState, mnemonic: Mnemonic, mode: AddressingMode)
    requires
        s.wf(),
        s.bus.cycles + 2 <= usize::MAX,
    ensures
        s.perform(mnemonic, mode).within(s, 2),
{
    reveal(CpuState::perform);
    lemma_reading_keeps(s, mode, s.a);
    lemma_reading_keeps(s, mode, s.x);
    lemma_reading_keeps(s, mode, s.y);
    lemma_writing_keeps(s, mode);
    lemma_stack_instructions_keep(s);
    lemma_flow_keeps(s, mode, true);
    lemma_flow_keeps(s, mode, false);
}

/// An instruction takes at least two cycles and at most what a step allows
/// for, and keeps the machine well formed.
pub proof fn lemma_execute_keeps(s: CpuState, op: OpCode)
    requires
        s.wf(),
        s.has_budget(),
        op.wf(),
    ensures
        s.execute(op).wf(),
        s.bus.cycles < s.execute(op).bus.cycles <= s.bus.cycles + STEP_CYCLES_MAX,
{
    reveal(CpuState::execute);
    lemma_perform_keeps(s, op.mnemonic, op.mode);
    let s1 = s.perform(op.mnemonic, op.mode);
    let s2 = if op.mnemonic.spec_sets_pc() {
        s1
    } else {
        CpuState { pc: s1.pc.wrapping_add((op.len - 1) as u16), ..s1 }
    };
    lemma_tick_keeps(s2, op.cycles as nat);
    lemma_settle_keeps(s2.tick(op.cycles as nat));
}

/// A step keeps the machine well formed, and unless it ends the run it
/// moves the clock on.
pub proof fn lemma_step_keeps(s: CpuState)
    requires
        s.wf(),
    ensures
        s.step().0.wf(),
        s.step().1 is None ==> s.bus.cycles < s.step().0.bus.cycles,
        s.step().1 is Some ==> s.bus.cycles == s.step().0.bus.cycles,
{
    reveal(CpuState::step);
    reveal(CpuState::step_instruction);
    reveal(CpuState::service_nmi);
    if s.has_budget() {
        if s.bus.ppu.nmi_pending {
            let cleared = CpuState { bus: s.bus.clear_nmi(), ..s };
            assert(cleared.wf() && cleared.bus.cycles == s.bus.cycles) by {
                reveal(BusState::wf);
            }
            lemma_interrupt_keeps(cleared, InterruptType::NMI);
            lemma_settle_keeps(cleared.interrupt(InterruptType::NMI));
        } else {
            lemma_read_keeps(s, s.pc);
            let (code, t) = s.fetch();
            lemma_decode_wf(code);
            match spec_decode(code) {
                Some(op) => {
                    lemma_execute_keeps(t, op);
                },
                None => {},
            }
        }
    }
}

/// At every instruction boundary of a run, and so at its end, the machine
/// is well formed: the PPU has run three dots for every CPU cycle.
pub proof fn lemma_run_keeps(s: CpuState)
    requires
        s.wf(),
    ensures
        s.run().0.wf(),
        s.run().0.bus.ppu.elapsed_dots() == 3 * s.run().0.bus.cycles,
        s.bus.cycles <= s.run().0.bus.cycles,
    decreases usize::MAX - s.bus.cycles,
{
    lemma_step_keeps(s);
    let (t, halt) = s.step();
    if halt is None {
        lemma_run_keeps(t);
    }
    lemma_frame_clock(s.run().0.bus, 0);
}

} // verus!
