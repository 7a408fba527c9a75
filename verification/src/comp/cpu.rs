//! The 6502 interpreter.

use vstd::prelude::*;
use crate::comp::bus::lemma_stall_bounded;
use crate::comp::bus::Bus;
use crate::comp::flags::CpuFlags;
use crate::comp::opcodes::decode;
use crate::comp::opcodes::Family;
use crate::comp::opcodes::Mnemonic;
use crate::comp::opcodes::OpCode;
use crate::comp::semantics::spec_rotate_left;
use crate::comp::semantics::spec_rotate_right;
use crate::comp::semantics::spec_shift_left;
use crate::comp::semantics::spec_shift_right;
use crate::comp::semantics::CpuState;
use crate::comp::semantics::STACK;
use crate::comp::semantics::STACK_RESET;
use crate::comp::semantics::STATUS_RESET;
use crate::comp::semantics::STEP_CYCLES_MAX;

verus! {

/// The address after `pos`, wrapping from `$FFFF` to `$0000`.
pub open spec fn spec_next_addr(pos: u16) -> u16 {
    if pos == 0xFFFF {
        0
    } else {
        (pos + 1) as u16
    }
}

/// The address after `pos`, wrapping from `$FFFF` to `$0000`.
#[verifier::when_used_as_spec(spec_next_addr)]
pub fn next_addr(pos: u16) -> (next: u16)
    ensures
        next == spec_next_addr(pos),
{
    if pos == 0xFFFF {
        0
    } else {
        pos + 1
    }
}

/// The 16-bit word with low byte `lo` and high byte `hi`.
pub open spec fn spec_word(lo: u8, hi: u8) -> u16 {
    (hi * 256 + lo) as u16
}

/// The 16-bit word with low byte `lo` and high byte `hi`.
#[verifier::when_used_as_spec(spec_word)]
pub fn word(lo: u8, hi: u8) -> (w: u16)
    ensures
        w == spec_word(lo, hi),
{
    hi as u16 * 256 + lo as u16
}

/// The low byte of a word.
pub open spec fn spec_low_byte(w: u16) -> u8 {
    (w % 256) as u8
}

/// The low byte of a word.
#[verifier::when_used_as_spec(spec_low_byte)]
pub fn low_byte(w: u16) -> (b: u8)
    ensures
        b == spec_low_byte(w),
{
    (w % 256) as u8
}

/// The high byte of a word.
pub open spec fn spec_high_byte(w: u16) -> u8 {
    (w / 256) as u8
}

/// The high byte of a word.
#[verifier::when_used_as_spec(spec_high_byte)]
pub fn high_byte(w: u16) -> (b: u8)
    ensures
        b == spec_high_byte(w),
{
    (w / 256) as u8
}

/// A memory that is read and written a byte at a time, at 16-bit addresses.
/// A read may change the memory: some of the machine's registers do.
pub trait Mem: View + Sized {
    /// The states that the memory works on.
    spec fn mem_wf(s: Self::V) -> bool;

    /// The byte that a read at `addr` returns.
    spec fn read_value(s: Self::V, addr: u16) -> u8;

    /// The memory after a read at `addr`.
    spec fn after_read(s: Self::V, addr: u16) -> Self::V;

    /// The memory after `data` is written at `addr`.
    spec fn after_write(s: Self::V, addr: u16, data: u8) -> Self::V;

    fn mem_read(&mut self, addr: u16) -> (data: u8)
        requires
            Self::mem_wf(old(self)@),
        ensures
            data == Self::read_value(old(self)@, addr),
            final(self)@ == Self::after_read(old(self)@, addr),
            Self::mem_wf(final(self)@),
    ;

    fn mem_write(&mut self, addr: u16, data: u8)
        requires
            Self::mem_wf(old(self)@),
        ensures
            final(self)@ == Self::after_write(old(self)@, addr, data),
            Self::mem_wf(final(self)@),
    ;

    /// Reads a word: its low byte at `pos`, then its high byte at the address
    /// after it.
    fn mem_read_u16(&mut self, pos: u16) -> (data: u16)
        requires
            Self::mem_wf(old(self)@),
        ensures
            data == spec_word(
                Self::read_value(old(self)@, pos),
                Self::read_value(Self::after_read(old(self)@, pos), spec_next_addr(pos)),
            ),
            final(self)@ == Self::after_read(Self::after_read(old(self)@, pos), spec_next_addr(pos)),
            Self::mem_wf(final(self)@),
    {
        let lo: u8 = self.mem_read(pos);
        let hi: u8 = self.mem_read(next_addr(pos));
        word(lo, hi)
    }

    /// Writes a word: its low byte at `pos`, then its high byte at the
    /// address after it.
    fn mem_write_u16(&mut self, pos: u16, data: u16)
        requires
            Self::mem_wf(old(self)@),
        ensures
            final(self)@ == Self::after_write(
                Self::after_write(old(self)@, pos, spec_low_byte(data)),
                spec_next_addr(pos),
                spec_high_byte(data),
            ),
            Self::mem_wf(final(self)@),
    {
        let hi: u8 = high_byte(data);
        let lo: u8 = low_byte(data);
        self.mem_write(pos, lo);
        self.mem_write(next_addr(pos), hi);
    }
}

/// How an instruction finds what it works on.
#[allow(non_camel_case_types)]
#[derive(Clone, Copy, Debug, PartialEq, Eq, Structural)]
pub enum AddressingMode {
    Immediate,
    ZeroPage,
    ZeroPage_X,
    ZeroPage_Y,
    Absolute,
    Absolute_X,
    Absolute_Y,
    Indirect,
    Indirect_X,
    Indirect_Y,
    /// The instruction works on A.
    Accumulator,
    /// The operand is a branch offset.
    Relative,
    /// The instruction has no operand.
    NoneAddressing,
}

impl AddressingMode {
    /// Whether the mode names an address in memory.
    pub open spec fn is_memory(self) -> bool {
        match self {
            AddressingMode::Accumulator
            | AddressingMode::Relative
            | AddressingMode::NoneAddressing => false,
            _ => true,
        }
    }

    /// Bytes of operand that follow the opcode.
    pub open spec fn spec_operand_len(self) -> u8 {
        match self {
            AddressingMode::Accumulator | AddressingMode::NoneAddressing => 0,
            AddressingMode::Absolute
            | AddressingMode::Absolute_X
            | AddressingMode::Absolute_Y
            | AddressingMode::Indirect => 2,
            _ => 1,
        }
    }
}

/// The two ways into an interrupt handler.
#[derive(Clone, Copy, Debug, PartialEq, Eq, Structural)]
pub enum InterruptType {
    NMI,
    BRK,
}

impl InterruptType {
    /// Where the handler's address is read from.
    pub open spec fn spec_vector_addr(self) -> u16 {
        match self {
            InterruptType::NMI => 0xFFFA,
            InterruptType::BRK => 0xFFFE,
        }
    }

    /// Where the handler's address is read from.
    #[verifier::when_used_as_spec(spec_vector_addr)]
    pub fn vector_addr(self) -> (addr: u16)
        ensures
            addr == self.spec_vector_addr(),
    {
        match self {
            InterruptType::NMI => 0xFFFA,
            InterruptType::BRK => 0xFFFE,
        }
    }

    /// Whether the status is pushed with B set.
    pub open spec fn spec_b_flag(self) -> bool {
        self == InterruptType::BRK
    }

    /// Whether the status is pushed with B set.
    #[verifier::when_used_as_spec(spec_b_flag)]
    pub fn b_flag(self) -> (b: bool)
        ensures
            b == self.spec_b_flag(),
    {
        match self {
            InterruptType::NMI => false,
            InterruptType::BRK => true,
        }
    }

    /// How far behind the program counter the address lies that is pushed:
    /// BRK skips the byte that follows it.
    pub open spec fn spec_return_offset(self) -> u16 {
        match self {
            InterruptType::NMI => 0,
            InterruptType::BRK => 1,
        }
    }

    /// How far behind the program counter the address lies that is pushed.
    #[verifier::when_used_as_spec(spec_return_offset)]
    pub fn return_offset(self) -> (n: u16)
        ensures
            n == self.spec_return_offset(),
    {
        match self {
            InterruptType::NMI => 0,
            InterruptType::BRK => 1,
        }
    }

    /// Cycles that the entry costs.
    pub open spec fn spec_cpu_cycles(self) -> u8 {
        match self {
            InterruptType::NMI => 2,
            InterruptType::BRK => 1,
        }
    }

    /// Cycles that the entry costs.
    #[verifier::when_used_as_spec(spec_cpu_cycles)]
    pub fn cpu_cycles(self) -> (n: u8)
        ensures
            n == self.spec_cpu_cycles(),
    {
        match self {
            InterruptType::NMI => 2,
            InterruptType::BRK => 1,
        }
    }
}

/// Why a run ended.
#[derive(Clone, Copy, Debug, PartialEq, Eq, Structural)]
pub enum Halt {
    /// The processor fetched BRK.
    Break,
    /// The processor fetched an opcode that the 6502 leaves undefined.
    UnknownOpcode(u8),
    /// The cycle counter has no room for another step.
    ClockExhausted,
}

/// Whether two addresses lie in different 256-byte pages.
pub open spec fn spec_page_cross(addr1: u16, addr2: u16) -> bool {
    addr1 / 256 != addr2 / 256
}

/// Where a branch goes: `offset` bytes from `from`, the offset read as a
/// signed byte, within 16 bits.
pub open spec fn spec_branch_target(from: u16, offset: u8) -> u16 {
    if offset < 128 {
        from.wrapping_add(offset as u16)
    } else {
        from.wrapping_sub((256 - offset) as u16)
    }
}

/// The address of the high byte of an indirect jump's target. The 6502 does
/// not carry into the page: behind `$xxFF` comes `$xx00`.
pub open spec fn spec_same_page_next(ptr: u16) -> u16 {
    if ptr % 256 == 255 {
        (ptr - 255) as u16
    } else {
        (ptr + 1) as u16
    }
}

/// Whether two addresses lie in different 256-byte pages.
#[verifier::when_used_as_spec(spec_page_cross)]
pub fn page_cross(addr1: u16, addr2: u16) -> (crossed: bool)
    ensures
        crossed == spec_page_cross(addr1, addr2),
{
    addr1 / 256 != addr2 / 256
}

/// Where a branch goes: `offset` bytes from `from`, the offset read as a
/// signed byte.
#[verifier::when_used_as_spec(spec_branch_target)]
pub fn branch_target(from: u16, offset: u8) -> (target: u16)
    ensures
        target == spec_branch_target(from, offset),
{
    if offset < 128 {
        from.wrapping_add(offset as u16)
    } else {
        from.wrapping_sub(256 - offset as u16)
    }
}

/// The address after `ptr` within its page.
#[verifier::when_used_as_spec(spec_same_page_next)]
pub fn same_page_next(ptr: u16) -> (next: u16)
    ensures
        next == spec_same_page_next(ptr),
{
    if ptr % 256 == 255 {
        ptr - 255
    } else {
        ptr + 1
    }
}

pub struct CPU {
    pub reg_a: u8,
    pub reg_x: u8,
    pub reg_y: u8,
    pub status: CpuFlags,
    pub pc: u16,
    pub stk_ptr: u8,
    pub bus: Bus,
    pub cycles: usize,
}

impl View for CPU {
    type V = CpuState;

    open spec fn view(&self) -> CpuState {
        CpuState {
            a: self.reg_a,
            x: self.reg_x,
            y: self.reg_y,
            status: self.status,
            pc: self.pc,
            sp: self.stk_ptr,
            cycles: self.cycles,
            bus: self.bus@,
        }
    }
}

impl Mem for CPU {
    open spec fn mem_wf(s: CpuState) -> bool {
        s.wf()
    }

    open spec fn read_value(s: CpuState, addr: u16) -> u8 {
        s.read(addr).0
    }

    open spec fn after_read(s: CpuState, addr: u16) -> CpuState {
        s.read(addr).1
    }

    open spec fn after_write(s: CpuState, addr: u16, data: u8) -> CpuState {
        s.write(addr, data)
    }

    fn mem_read(&mut self, addr: u16) -> (data: u8)
        ensures
            final(self)@ == (CpuState { bus: final(self)@.bus, ..old(self)@ }),
            final(self)@.within(old(self)@, 0),
    {
        self.bus.mem_read(addr)
    }

    fn mem_write(&mut self, addr: u16, data: u8)
        ensures
            final(self)@ == (CpuState { bus: final(self)@.bus, ..old(self)@ }),
            final(self)@.within(old(self)@, 0),
    {
        self.bus.mem_write(addr, data);
    }

    fn mem_read_u16(&mut self, pos: u16) -> (data: u16)
        ensures
            (data, final(self)@) == old(self)@.read_u16(pos),
            final(self)@ == (CpuState { bus: final(self)@.bus, ..old(self)@ }),
            final(self)@.within(old(self)@, 0),
    {
        self.bus.mem_read_u16(pos)
    }

    fn mem_write_u16(&mut self, pos: u16, data: u16)
        ensures
            final(self)@ == old(self)@.write_u16(pos, data),
            final(self)@.within(old(self)@, 0),
    {
        self.bus.mem_write_u16(pos, data)
    }
}

impl CPU {
    /// A processor on `bus`, as a reset leaves it but for the program
    /// counter, which is 0.
    pub fn new(bus: Bus) -> (cpu: CPU)
        requires
            bus@.wf(),
        ensures
            cpu@ == (CpuState {
                a: 0,
                x: 0,
                y: 0,
                status: CpuFlags { bits: STATUS_RESET },
                pc: 0,
                sp: STACK_RESET,
                cycles: 0,
                bus: bus@,
            }),
            cpu@.wf(),
    {
        CPU {
            reg_a: 0,
            reg_x: 0,
            reg_y: 0,
            pc: 0,
            cycles: 0,
            status: CpuFlags::from_bits_truncate(STATUS_RESET),
            stk_ptr: STACK_RESET,
            bus,
        }
    }

    /// Tells whether the machine is well formed.
    pub fn is_well_formed(&self) -> (b: bool)
        ensures
            b == self@.wf(),
    {
        self.bus.is_well_formed() && self.cycles <= self.bus.cycles()
    }

    /// Lets `cycles` cycles pass.
    pub fn tick(&mut self, cycles: u8)
        requires
            old(self)@.wf(),
            old(self)@.bus.cycles + cycles <= usize::MAX,
        ensures
            final(self)@ == old(self)@.tick(cycles as nat),
            final(self)@.wf(),
            final(self)@.bus.cycles == old(self)@.bus.cycles + cycles,
            final(self)@.bus.dma_stall == old(self)@.bus.dma_stall,
    {
        self.cycles = self.cycles + cycles as usize;
        self.bus.tick(cycles as u16);
    }

    /// Charges the cycles of a sprite DMA, if one is outstanding.
    pub fn settle_dma(&mut self)
        requires
            old(self)@.wf(),
            old(self)@.bus.cycles + old(self)@.bus.dma_stall <= usize::MAX,
        ensures
            final(self)@ == old(self)@.settle_dma(),
            final(self)@.wf(),
            final(self)@.bus.cycles == old(self)@.bus.cycles + old(self)@.bus.dma_stall,
    {
        self.cycles = self.cycles + self.bus.dma_stall() as usize;
        self.bus.settle_dma();
    }

    /// Pushes a byte: stores it at `$0100 + S` and steps S down.
    pub fn stk_push(&mut self, data: u8)
        requires
            old(self)@.wf(),
        ensures
            final(self)@ == old(self)@.push(data),
            final(self)@.within(old(self)@, 0),
    {
        self.mem_write(STACK + self.stk_ptr as u16, data);
        self.stk_ptr = self.stk_ptr.wrapping_sub(1);
    }

    /// Pushes a word, high byte first.
    pub fn stk_push_u16(&mut self, data: u16)
        requires
            old(self)@.wf(),
        ensures
            final(self)@ == old(self)@.push_u16(data),
            final(self)@.within(old(self)@, 0),
    {
        let hi: u8 = high_byte(data);
        let lo: u8 = low_byte(data);
        self.stk_push(hi);
        self.stk_push(lo);
    }

    /// Pops a byte: steps S up and reads at `$0100 + S`.
    pub fn stk_pop(&mut self) -> (data: u8)
        requires
            old(self)@.wf(),
        ensures
            (data, final(self)@) == old(self)@.pop(),
            final(self)@.within(old(self)@, 0),
    {
        self.stk_ptr = self.stk_ptr.wrapping_add(1);
        self.mem_read(STACK + self.stk_ptr as u16)
    }

    /// Pops a word, low byte first.
    pub fn stk_pop_u16(&mut self) -> (data: u16)
        requires
            old(self)@.wf(),
        ensures
            (data, final(self)@) == old(self)@.pop_u16(),
            final(self)@.within(old(self)@, 0),
    {
        let lo: u8 = self.stk_pop();
        let hi: u8 = self.stk_pop();
        word(lo, hi)
    }

    /// Writes a program to address 0 and up, and points the reset vector at
    /// address 0. Only what lands in RAM stays: the vector itself lies in
    /// ROM, so a reset goes where the cartridge says.
    pub fn load(&mut self, program: Vec<u8>)
        requires
            old(self)@.wf(),
        ensures
            final(self)@ == old(self)@.load(program@),
            final(self)@.within(old(self)@, 0),
    {
        proof {
            reveal(CpuState::load);
        }
        let n: u16 = (program.len() % 0x10000) as u16;
        let mut i: u16 = 0;
        while i < n
            invariant
                i <= n,
                n == program.len() % 0x10000,
                self@ == old(self)@.write_program(program@, i as nat),
                self@.within(old(self)@, 0),
            decreases n - i,
        {
            self.mem_write(i, program[i as usize]);
            i += 1;
        }
        self.mem_write_u16(0xFFFC, 0x0000);
    }

    /// Resets the processor: A and X cleared, status and stack pointer at
    /// their reset values, the program counter read from `$FFFC`.
    pub fn reset(&mut self)
        requires
            old(self)@.wf(),
        ensures
            final(self)@ == old(self)@.reset(),
            final(self)@.within(old(self)@, 0),
    {
        proof {
            reveal(CpuState::reset);
        }
        self.reg_x = 0;
        self.reg_a = 0;
        self.status = CpuFlags::from_bits_truncate(STATUS_RESET);
        self.stk_ptr = STACK_RESET;
        self.cycles = 0;
        self.pc = self.mem_read_u16(0xFFFC);
    }

    /// Loads a program, resets the processor and runs it.
    pub fn load_and_run(&mut self, program: Vec<u8>) -> (halt: Halt)
        requires
            old(self)@.wf(),
        ensures
            (final(self)@, halt) == old(self)@.load(program@).reset().run(),
            final(self)@.wf(),
    {
        self.load(program);
        self.reset();
        self.run()
    }

    /// BIT: tests the bits of memory against A.
    pub fn bit(&mut self, mode: &AddressingMode)
        requires
            old(self)@.wf(),
            mode.is_memory(),
        ensures
            final(self)@ == old(self)@.bit(*mode),
            final(self)@.within(old(self)@, 0),
    {
        proof {
            reveal(CpuState::bit);
            reveal(CpuState::operand);
        }
        let (addr, _) = self.get_operand_address(mode);
        let val: u8 = self.mem_read(addr);
        let and: u8 = self.reg_a & val;
        self.status.set(CpuFlags::ZERO, and == 0);
        self.status.set(CpuFlags::NEGATIVE, val & 0b1000_0000 != 0);
        self.status.set(CpuFlags::OVERFLOW, val & 0b0100_0000 != 0);
    }

    /// LDA: loads A.
    pub fn lda(&mut self, mode: &AddressingMode)
        requires
            old(self)@.wf(),
            mode.is_memory(),
            old(self)@.bus.cycles < usize::MAX,
        ensures
            final(self)@ == old(self)@.lda(*mode),
            final(self)@.within(old(self)@, 1),
    {
        proof {
            reveal(CpuState::lda);
            reveal(CpuState::operand);
        }
        let (addr, page_cross) = self.get_operand_address(mode);
        let val: u8 = self.mem_read(addr);
        self.reg_a = val;
        self.update_zero_and_neg_flag(self.reg_a);
        if page_cross {
            self.tick(1);
        }
    }

    /// LDX: loads X.
    pub fn ldx(&mut self, mode: &AddressingMode)
        requires
            old(self)@.wf(),
            mode.is_memory(),
            old(self)@.bus.cycles < usize::MAX,
        ensures
            final(self)@ == old(self)@.ldx(*mode),
            final(self)@.within(old(self)@, 1),
    {
        proof {
            reveal(CpuState::ldx);
            reveal(CpuState::operand);
        }
        let (addr, page_cross) = self.get_operand_address(mode);
        let val: u8 = self.mem_read(addr);
        self.reg_x = val;
        self.update_zero_and_neg_flag(self.reg_x);
        if page_cross {
            self.tick(1);
        }
    }

    /// LDY: loads Y.
    pub fn ldy(&mut self, mode: &AddressingMode)
        requires
            old(self)@.wf(),
            mode.is_memory(),
            old(self)@.bus.cycles < usize::MAX,
        ensures
            final(self)@ == old(self)@.ldy(*mode),
            final(self)@.within(old(self)@, 1),
    {
        proof {
            reveal(CpuState::ldy);
            reveal(CpuState::operand);
        }
        let (addr, page_cross) = self.get_operand_address(mode);
        let val: u8 = self.mem_read(addr);
        self.reg_y = val;
        self.update_zero_and_neg_flag(self.reg_y);
        if page_cross {
            self.tick(1);
        }
    }

    /// SEI: disables interrupts.
    pub fn sei(&mut self)
        ensures
            final(self)@ == old(self)@.flag(CpuFlags::INTERRUPT_DISABLE, true),
    {
        self.status.insert(CpuFlags::INTERRUPT_DISABLE);
    }

    /// SED: sets the decimal flag.
    pub fn sed(&mut self)
        ensures
            final(self)@ == old(self)@.flag(CpuFlags::DECIMAL_MODE, true),
    {
        self.status.insert(CpuFlags::DECIMAL_MODE);
    }

    /// CLD: clears the decimal flag.
    pub fn cld(&mut self)
        ensures
            final(self)@ == old(self)@.flag(CpuFlags::DECIMAL_MODE, false),
    {
        self.status.remove(CpuFlags::DECIMAL_MODE);
    }

    /// RTI: pulls the status and the program counter.
    pub fn rti(&mut self)
        requires
            old(self)@.wf(),
        ensures
            final(self)@ == old(self)@.rti(),
            final(self)@.within(old(self)@, 0),
    {
        proof {
            reveal(CpuState::rti);
        }
        let pulled_status: u8 = self.stk_pop();
        self.status = CpuFlags::from_bits_truncate(pulled_status);
        self.status.remove(CpuFlags::BREAK);
        self.status.insert(CpuFlags::UNUSED);
        self.pc = self.stk_pop_u16();
    }

    /// AND: `A = A & M`.
    pub fn and(&mut self, mode: &AddressingMode)
        requires
            old(self)@.wf(),
            mode.is_memory(),
            old(self)@.bus.cycles < usize::MAX,
        ensures
            final(self)@ == old(self)@.and(*mode),
            final(self)@.within(old(self)@, 1),
    {
        proof {
            reveal(CpuState::and);
            reveal(CpuState::operand);
        }
        let (addr, page_cross) = self.get_operand_address(mode);
        let data: u8 = self.mem_read(addr);
        self.reg_a = self.reg_a & data;
        self.update_zero_and_neg_flag(self.reg_a);
        if page_cross {
            self.tick(1);
        }
    }

    /// ASL on memory: shifts left, bit 7 into C. Returns the result.
    pub fn asl(&mut self, mode: &AddressingMode) -> (data: u8)
        requires
            old(self)@.wf(),
            mode.is_memory(),
        ensures
            final(self)@ == old(self)@.asl(*mode),
            data == spec_shift_left(old(self)@.operand(*mode).0),
            final(self)@.within(old(self)@, 0),
    {
        proof {
            reveal(CpuState::operand);
            reveal(CpuState::asl);
        }
        let (addr, _) = self.get_operand_address(mode);
        let mut data: u8 = self.mem_read(addr);
        self.update_carry_flag_asl(data);
        data = ((data as u16 * 2) % 256) as u8;
        self.mem_write(addr, data);
        self.update_zero_and_neg_flag(data);
        data
    }

    /// ASL on A: shifts left, bit 7 into C. Returns the result.
    pub fn asl_acc(&mut self) -> (data: u8)
        ensures
            final(self)@ == old(self)@.asl_acc(),
            data == spec_shift_left(old(self)@.a),
    {
        let mut data: u8 = self.reg_a;
        self.update_carry_flag_asl(data);
        data = ((data as u16 * 2) % 256) as u8;
        self.reg_a = data;
        self.update_zero_and_neg_flag(data);
        data
    }

    /// LSR on memory: shifts right, bit 0 into C. Returns the result.
    pub fn lsr(&mut self, mode: &AddressingMode) -> (data: u8)
        requires
            old(self)@.wf(),
            mode.is_memory(),
        ensures
            final(self)@ == old(self)@.lsr(*mode),
            data == spec_shift_right(old(self)@.operand(*mode).0),
            final(self)@.within(old(self)@, 0),
    {
        proof {
            reveal(CpuState::operand);
            reveal(CpuState::lsr);
        }
        let (addr, _) = self.get_operand_address(mode);
        let mut data: u8 = self.mem_read(addr);
        self.update_carry_flag_lsr(data);
        data = data / 2;
        self.mem_write(addr, data);
        self.update_zero_and_neg_flag(data);
        data
    }

    /// LSR on A: shifts right, bit 0 into C. Returns the result.
    pub fn lsr_acc(&mut self) -> (data: u8)
        ensures
            final(self)@ == old(self)@.lsr_acc(),
            data == spec_shift_right(old(self)@.a),
    {
        let mut data: u8 = self.reg_a;
        self.update_carry_flag_lsr(data);
        data = data / 2;
        self.reg_a = data;
        self.update_zero_and_neg_flag(data);
        data
    }

    /// SBC: `A = A - M - (1 - C)`.
    pub fn sbc(&mut self, mode: &AddressingMode)
        requires
            old(self)@.wf(),
            mode.is_memory(),
            old(self)@.bus.cycles < usize::MAX,
        ensures
            final(self)@ == old(self)@.sbc(*mode),
            final(self)@.within(old(self)@, 1),
    {
        proof {
            reveal(CpuState::sbc);
            reveal(CpuState::operand);
            reveal(CpuState::add_to_a);
        }
        let (addr, page_cross) = self.get_operand_address(mode);
        let data: u8 = self.mem_read(addr);
        self.add_to_reg_a(data ^ 0xFF);
        if page_cross {
            self.tick(1);
        }
    }

    /// ADC: `A = A + M + C`.
    pub fn adc(&mut self, mode: &AddressingMode)
        requires
            old(self)@.wf(),
            mode.is_memory(),
            old(self)@.bus.cycles < usize::MAX,
        ensures
            final(self)@ == old(self)@.adc(*mode),
            final(self)@.within(old(self)@, 1),
    {
        proof {
            reveal(CpuState::adc);
            reveal(CpuState::operand);
            reveal(CpuState::add_to_a);
        }
        let (addr, page_cross) = self.get_operand_address(mode);
        let data: u8 = self.mem_read(addr);
        self.add_to_reg_a(data);
        if page_cross {
            self.tick(1);
        }
    }

    /// Adds `data` and the carry to A and sets C, V, Z and N by the sum.
    pub fn add_to_reg_a(&mut self, data: u8)
        ensures
            final(self)@ == old(self)@.add_to_a(data),
    {
        proof {
            reveal(CpuState::add_to_a);
        }
        let carry: u16 = if self.status.contains(CpuFlags::CARRY) {
            1
        } else {
            0
        };
        let sum: u16 = self.reg_a as u16 + data as u16 + carry;
        self.status.set(CpuFlags::CARRY, sum > 0xFF);
        let res: u8 = (sum % 256) as u8;
        self.status.set(CpuFlags::OVERFLOW, (self.reg_a ^ res) & (data ^ res) & 0x80 != 0);
        self.reg_a = res;
        self.update_zero_and_neg_flag(self.reg_a);
    }

    /// CMP, CPX, CPY: compares `reg` with memory.
    pub fn compare(&mut self, mode: &AddressingMode, reg: u8)
        requires
            old(self)@.wf(),
            mode.is_memory(),
            old(self)@.bus.cycles < usize::MAX,
        ensures
            final(self)@ == old(self)@.compare(*mode, reg),
            final(self)@.within(old(self)@, 1),
    {
        proof {
            reveal(CpuState::compare);
            reveal(CpuState::operand);
        }
        let (addr, page_cross) = self.get_operand_address(mode);
        let data: u8 = self.mem_read(addr);
        self.status.set(CpuFlags::CARRY, data <= reg);
        self.update_zero_and_neg_flag(reg.wrapping_sub(data));
        if page_cross {
            self.tick(1);
        }
    }

    /// PLA: pulls A.
    pub fn pla(&mut self)
        requires
            old(self)@.wf(),
        ensures
            final(self)@ == old(self)@.pla(),
            final(self)@.within(old(self)@, 0),
    {
        proof {
            reveal(CpuState::pla);
        }
        let data: u8 = self.stk_pop();
        self.reg_a = data;
        self.update_zero_and_neg_flag(self.reg_a);
    }

    /// PHA: pushes A.
    pub fn pha(&mut self)
        requires
            old(self)@.wf(),
        ensures
            final(self)@ == old(self)@.pha(),
            final(self)@.within(old(self)@, 0),
    {
        proof {
            reveal(CpuState::pha);
        }
        self.stk_push(self.reg_a);
    }

    /// PLP: pulls the status.
    pub fn plp(&mut self)
        requires
            old(self)@.wf(),
        ensures
            final(self)@ == old(self)@.plp(),
            final(self)@.within(old(self)@, 0),
    {
        proof {
            reveal(CpuState::plp);
        }
        let pull_status: u8 = self.stk_pop();
        self.status = CpuFlags::from_bits_truncate(
            (pull_status & !CpuFlags::BREAK) | CpuFlags::UNUSED,
        );
    }

    /// PHP: pushes the status, with B and the unused bit set.
    pub fn php(&mut self)
        requires
            old(self)@.wf(),
        ensures
            final(self)@ == old(self)@.php(),
            final(self)@.within(old(self)@, 0),
    {
        proof {
            reveal(CpuState::php);
        }
        self.stk_push(self.status.bits() | CpuFlags::BREAK | CpuFlags::UNUSED);
    }

    /// INC: adds 1 to memory. Returns the result.
    pub fn inc(&mut self, mode: &AddressingMode) -> (data: u8)
        requires
            old(self)@.wf(),
            mode.is_memory(),
        ensures
            final(self)@ == old(self)@.inc(*mode),
            data == old(self)@.operand(*mode).0.wrapping_add(1),
            final(self)@.within(old(self)@, 0),
    {
        proof {
            reveal(CpuState::operand);
            reveal(CpuState::inc);
        }
        let (addr, _) = self.get_operand_address(mode);
        let mut data: u8 = self.mem_read(addr);
        data = data.wrapping_add(1);
        self.mem_write(addr, data);
        self.update_zero_and_neg_flag(data);
        data
    }

    /// INX: adds 1 to X.
    pub fn incx(&mut self)
        ensures
            final(self)@ == old(self)@.set_x(old(self)@.x.wrapping_add(1)),
    {
        self.reg_x = self.reg_x.wrapping_add(1);
        self.update_zero_and_neg_flag(self.reg_x);
    }

    /// INY: adds 1 to Y.
    pub fn incy(&mut self)
        ensures
            final(self)@ == old(self)@.set_y(old(self)@.y.wrapping_add(1)),
    {
        self.reg_y = self.reg_y.wrapping_add(1);
        self.update_zero_and_neg_flag(self.reg_y);
    }

    /// DEC: subtracts 1 from memory. Returns the result.
    pub fn dec(&mut self, mode: &AddressingMode) -> (data: u8)
        requires
            old(self)@.wf(),
            mode.is_memory(),
        ensures
            final(self)@ == old(self)@.dec(*mode),
            data == old(self)@.operand(*mode).0.wrapping_sub(1),
            final(self)@.within(old(self)@, 0),
    {
        proof {
            reveal(CpuState::operand);
            reveal(CpuState::dec);
        }
        let (addr, _) = self.get_operand_address(mode);
        let mut data: u8 = self.mem_read(addr);
        data = data.wrapping_sub(1);
        self.mem_write(addr, data);
        self.update_zero_and_neg_flag(data);
        data
    }

    /// DEX: subtracts 1 from X.
    pub fn dex(&mut self)
        ensures
            final(self)@ == old(self)@.set_x(old(self)@.x.wrapping_sub(1)),
    {
        self.reg_x = self.reg_x.wrapping_sub(1);
        self.update_zero_and_neg_flag(self.reg_x);
    }

    /// DEY: subtracts 1 from Y.
    pub fn dey(&mut self)
        ensures
            final(self)@ == old(self)@.set_y(old(self)@.y.wrapping_sub(1)),
    {
        self.reg_y = self.reg_y.wrapping_sub(1);
        self.update_zero_and_neg_flag(self.reg_y);
    }

    /// EOR: `A = A ^ M`.
    pub fn eor(&mut self, mode: &AddressingMode)
        requires
            old(self)@.wf(),
            mode.is_memory(),
            old(self)@.bus.cycles < usize::MAX,
        ensures
            final(self)@ == old(self)@.eor(*mode),
            final(self)@.within(old(self)@, 1),
    {
        proof {
            reveal(CpuState::eor);
            reveal(CpuState::operand);
        }
        let (addr, page_cross) = self.get_operand_address(mode);
        let data: u8 = self.mem_read(addr);
        self.reg_a = data ^ self.reg_a;
        self.update_zero_and_neg_flag(self.reg_a);
        if page_cross {
            self.tick(1);
        }
    }

    /// ORA: `A = A | M`.
    pub fn ora(&mut self, mode: &AddressingMode)
        requires
            old(self)@.wf(),
            mode.is_memory(),
            old(self)@.bus.cycles < usize::MAX,
        ensures
            final(self)@ == old(self)@.ora(*mode),
            final(self)@.within(old(self)@, 1),
    {
        proof {
            reveal(CpuState::ora);
            reveal(CpuState::operand);
        }
        let (addr, page_cross) = self.get_operand_address(mode);
        let data: u8 = self.mem_read(addr);
        self.reg_a = data | self.reg_a;
        self.update_zero_and_neg_flag(self.reg_a);
        if page_cross {
            self.tick(1);
        }
    }

    /// ROL on A: rotates left through C.
    pub fn rol_acc(&mut self)
        ensures
            final(self)@ == old(self)@.rol_acc(),
    {
        let old_val: u8 = self.reg_a;
        let carry_in: u16 = if self.status.contains(CpuFlags::CARRY) {
            1
        } else {
            0
        };
        self.status.set(CpuFlags::CARRY, old_val >= 128);
        let new_val: u8 = ((old_val as u16 * 2) % 256 + carry_in) as u8;
        self.reg_a = new_val;
        self.update_zero_and_neg_flag(self.reg_a);
    }

    /// ROL on memory: rotates left through C.
    pub fn rol(&mut self, mode: &AddressingMode)
        requires
            old(self)@.wf(),
            mode.is_memory(),
        ensures
            final(self)@ == old(self)@.rol(*mode),
            final(self)@.within(old(self)@, 0),
    {
        proof {
            reveal(CpuState::rol);
        }
        let (addr, _) = self.get_operand_address(mode);
        let old_val: u8 = self.mem_read(addr);
        let carry_in: u16 = if self.status.contains(CpuFlags::CARRY) {
            1
        } else {
            0
        };
        self.status.set(CpuFlags::CARRY, old_val >= 128);
        let new_val: u8 = ((old_val as u16 * 2) % 256 + carry_in) as u8;
        self.mem_write(addr, new_val);
        self.update_zero_and_neg_flag(new_val);
    }

    /// ROR on A: rotates right through C.
    pub fn ror_acc(&mut self)
        ensures
            final(self)@ == old(self)@.ror_acc(),
    {
        let carry_in: u8 = if self.status.contains(CpuFlags::CARRY) {
            0x80
        } else {
            0
        };
        let old_val: u8 = self.reg_a;
        let new_val: u8 = old_val / 2 + carry_in;
        self.status.set(CpuFlags::CARRY, old_val % 2 == 1);
        self.reg_a = new_val;
        self.update_zero_and_neg_flag(self.reg_a);
    }

    /// ROR on memory: rotates right through C.
    pub fn ror(&mut self, mode: &AddressingMode)
        requires
            old(self)@.wf(),
            mode.is_memory(),
        ensures
            final(self)@ == old(self)@.ror(*mode),
            final(self)@.within(old(self)@, 0),
    {
        proof {
            reveal(CpuState::ror);
        }
        let (addr, _) = self.get_operand_address(mode);
        let carry_in: u8 = if self.status.contains(CpuFlags::CARRY) {
            0x80
        } else {
            0
        };
        let old_val: u8 = self.mem_read(addr);
        let new_val: u8 = old_val / 2 + carry_in;
        self.status.set(CpuFlags::CARRY, old_val % 2 == 1);
        self.mem_write(addr, new_val);
        self.update_zero_and_neg_flag(new_val);
    }

    /// STA: stores A.
    pub fn sta(&mut self, mode: &AddressingMode)
        requires
            old(self)@.wf(),
            mode.is_memory(),
        ensures
            final(self)@ == old(self)@.sta(*mode),
            final(self)@.within(old(self)@, 0),
    {
        proof {
            reveal(CpuState::sta);
        }
        let (addr, _) = self.get_operand_address(mode);
        self.mem_write(addr, self.reg_a);
    }

    /// STX: stores X.
    pub fn stx(&mut self, mode: &AddressingMode)
        requires
            old(self)@.wf(),
            mode.is_memory(),
        ensures
            final(self)@ == old(self)@.stx(*mode),
            final(self)@.within(old(self)@, 0),
    {
        proof {
            reveal(CpuState::stx);
        }
        let (addr, _) = self.get_operand_address(mode);
        self.mem_write(addr, self.reg_x);
    }

    /// STY: stores Y.
    pub fn sty(&mut self, mode: &AddressingMode)
        requires
            old(self)@.wf(),
            mode.is_memory(),
        ensures
            final(self)@ == old(self)@.sty(*mode),
            final(self)@.within(old(self)@, 0),
    {
        proof {
            reveal(CpuState::sty);
        }
        let (addr, _) = self.get_operand_address(mode);
        self.mem_write(addr, self.reg_y);
    }

    /// TAX: copies A to X.
    pub fn tax(&mut self)
        ensures
            final(self)@ == old(self)@.set_x(old(self)@.a),
    {
        self.reg_x = self.reg_a;
        self.update_zero_and_neg_flag(self.reg_x);
    }

    /// TXA: copies X to A.
    pub fn txa(&mut self)
        ensures
            final(self)@ == old(self)@.set_a(old(self)@.x),
    {
        self.reg_a = self.reg_x;
        self.update_zero_and_neg_flag(self.reg_a);
    }

    /// TAY: copies A to Y.
    pub fn tay(&mut self)
        ensures
            final(self)@ == old(self)@.set_y(old(self)@.a),
    {
        self.reg_y = self.reg_a;
        self.update_zero_and_neg_flag(self.reg_y);
    }

    /// TYA: copies Y to A.
    pub fn tya(&mut self)
        ensures
            final(self)@ == old(self)@.set_a(old(self)@.y),
    {
        self.reg_a = self.reg_y;
        self.update_zero_and_neg_flag(self.reg_a);
    }

    /// TXS: copies X to the stack pointer; no flag moves.
    pub fn txs(&mut self)
        ensures
            final(self)@ == (CpuState { sp: old(self)@.x, ..old(self)@ }),
    {
        self.stk_ptr = self.reg_x;
    }

    /// TSX: copies the stack pointer to X.
    pub fn tsx(&mut self)
        ensures
            final(self)@ == old(self)@.set_x(old(self)@.sp),
    {
        self.reg_x = self.stk_ptr;
        self.update_zero_and_neg_flag(self.reg_x);
    }

    /// Sets Z and N by a result.
    pub fn update_zero_and_neg_flag(&mut self, res: u8)
        ensures
            final(self)@ == (CpuState { status: old(self)@.status.with_zn(res), ..old(self)@ }),
    {
        self.status.set(CpuFlags::ZERO, res == 0);
        self.status.set(CpuFlags::NEGATIVE, res & 0b1000_0000 != 0);
    }

    /// Sets C to bit 7 of the byte that a shift to the left is about to
    /// work on.
    pub fn update_carry_flag_asl(&mut self, res: u8)
        ensures
            final(self)@ == old(self)@.flag(CpuFlags::CARRY, res >= 128),
    {
        self.status.set(CpuFlags::CARRY, res >= 128);
    }

    /// Sets C to bit 0 of the byte that a shift to the right is about to
    /// work on.
    pub fn update_carry_flag_lsr(&mut self, res: u8)
        ensures
            final(self)@ == old(self)@.flag(CpuFlags::CARRY, res % 2 == 1),
    {
        self.status.set(CpuFlags::CARRY, res % 2 == 1);
    }

    /// Finds the address that an instruction works on, and tells whether
    /// reaching it crossed a page. The program counter stands at the
    /// instruction's second byte.
    pub fn get_operand_address(&mut self, mode: &AddressingMode) -> (res: (u16, bool))
        requires
            old(self)@.wf(),
            mode.is_memory(),
        ensures
            (res.0, res.1, final(self)@) == old(self)@.operand_address(*mode),
            final(self)@ == (CpuState { bus: final(self)@.bus, ..old(self)@ }),
            final(self)@.within(old(self)@, 0),
    {
        proof {
            reveal(CpuState::operand_address);
        }
        match mode {
            AddressingMode::Immediate => (self.pc, false),
            AddressingMode::ZeroPage => (self.mem_read(self.pc) as u16, false),
            AddressingMode::Absolute => (self.mem_read_u16(self.pc), false),
            AddressingMode::ZeroPage_X => {
                let pos: u8 = self.mem_read(self.pc);
                let addr: u16 = pos.wrapping_add(self.reg_x) as u16;
                (addr, false)
            },
            AddressingMode::ZeroPage_Y => {
                let pos: u8 = self.mem_read(self.pc);
                let addr: u16 = pos.wrapping_add(self.reg_y) as u16;
                (addr, false)
            },
            AddressingMode::Absolute_X => {
                let pos: u16 = self.mem_read_u16(self.pc);
                let addr: u16 = pos.wrapping_add(self.reg_x as u16);
                (addr, page_cross(pos, addr))
            },
            AddressingMode::Absolute_Y => {
                let pos: u16 = self.mem_read_u16(self.pc);
                let addr: u16 = pos.wrapping_add(self.reg_y as u16);
                (addr, page_cross(pos, addr))
            },
            AddressingMode::Indirect => {
                let ptr: u16 = self.mem_read_u16(self.pc);
                let lo: u8 = self.mem_read(ptr);
                let hi: u8 = self.mem_read(same_page_next(ptr));
                (word(lo, hi), false)
            },
            AddressingMode::Indirect_X => {
                let base: u8 = self.mem_read(self.pc);
                let ptr: u8 = base.wrapping_add(self.reg_x);
                let lo: u8 = self.mem_read(ptr as u16);
                let hi: u8 = self.mem_read(ptr.wrapping_add(1) as u16);
                (word(lo, hi), false)
            },
            AddressingMode::Indirect_Y => {
                let base: u8 = self.mem_read(self.pc);
                let lo: u8 = self.mem_read(base as u16);
                let hi: u8 = self.mem_read(base.wrapping_add(1) as u16);
                let deref_base: u16 = word(lo, hi);
                let deref: u16 = deref_base.wrapping_add(self.reg_y as u16);
                (deref, page_cross(deref, deref_base))
            },
            _ => (0, false),
        }
    }

    /// Enters the handler of the non-maskable interrupt.
    pub fn _interrupt_nmi(&mut self)
        requires
            old(self)@.wf(),
            old(self)@.bus.cycles + 2 <= usize::MAX,
        ensures
            final(self)@ == old(self)@.interrupt(InterruptType::NMI),
            final(self)@.within(old(self)@, 2),
            final(self)@.bus.cycles == old(self)@.bus.cycles + 2,
    {
        proof {
            reveal(CpuState::interrupt);
        }
        self.stk_push_u16(self.pc);
        let mut flag: CpuFlags = self.status;
        flag.remove(CpuFlags::BREAK);
        flag.insert(CpuFlags::UNUSED);
        self.stk_push(flag.bits());
        self.status.insert(CpuFlags::INTERRUPT_DISABLE);
        self.tick(2);
        self.pc = self.mem_read_u16(0xFFFA);
    }

    /// Enters an interrupt handler.
    pub fn interrupt(&mut self, interrupt: InterruptType)
        requires
            old(self)@.wf(),
            old(self)@.bus.cycles + 2 <= usize::MAX,
        ensures
            final(self)@ == old(self)@.interrupt(interrupt),
            final(self)@.within(old(self)@, 2),
            final(self)@.bus.cycles == old(self)@.bus.cycles + interrupt.spec_cpu_cycles(),
    {
        proof {
            reveal(CpuState::interrupt);
        }
        self.stk_push_u16(self.pc.wrapping_add(interrupt.return_offset()));
        let mut flag: CpuFlags = self.status;
        flag.set(CpuFlags::BREAK, interrupt.b_flag());
        flag.set(CpuFlags::UNUSED, true);
        self.stk_push(flag.bits());
        self.status.insert(CpuFlags::INTERRUPT_DISABLE);
        self.tick(interrupt.cpu_cycles());
        self.pc = self.mem_read_u16(interrupt.vector_addr());
    }

    /// A branch: reads the offset and, where `condition` holds, goes to
    /// the target.
    pub fn branch(&mut self, condition: bool)
        requires
            old(self)@.wf(),
            old(self)@.bus.cycles + 2 <= usize::MAX,
        ensures
            final(self)@ == old(self)@.branch(condition),
            final(self)@.within(old(self)@, 2),
    {
        proof {
            reveal(CpuState::branch);
        }
        let offset: u8 = self.mem_read(self.pc);
        self.pc = self.pc.wrapping_add(1);
        if condition {
            let target: u16 = branch_target(self.pc, offset);
            let crossed: bool = page_cross(self.pc, target);
            self.pc = target;
            self.tick(
                if crossed {
                    2
                } else {
                    1
                },
            );
        }
    }

    /// JMP, absolute or indirect.
    pub fn jmp(&mut self, mode: &AddressingMode)
        requires
            old(self)@.wf(),
            mode.is_memory(),
        ensures
            final(self)@ == old(self)@.jmp(*mode),
            final(self)@.within(old(self)@, 0),
    {
        proof {
            reveal(CpuState::jmp);
        }
        let (addr, _) = self.get_operand_address(mode);
        self.pc = addr;
    }

    /// JSR: pushes the address of its own last byte and jumps.
    pub fn jsr(&mut self)
        requires
            old(self)@.wf(),
        ensures
            final(self)@ == old(self)@.jsr(),
            final(self)@.within(old(self)@, 0),
    {
        proof {
            reveal(CpuState::jsr);
        }
        self.stk_push_u16(self.pc.wrapping_add(1));
        let target: u16 = self.mem_read_u16(self.pc);
        self.pc = target;
    }

    /// RTS: pulls the program counter and steps past the JSR.
    pub fn rts(&mut self)
        requires
            old(self)@.wf(),
        ensures
            final(self)@ == old(self)@.rts(),
            final(self)@.within(old(self)@, 0),
    {
        proof {
            reveal(CpuState::rts);
        }
        self.pc = self.stk_pop_u16().wrapping_add(1);
    }

    /// Whether the clock has room for another step.
    pub fn has_budget(&self) -> (b: bool)
        ensures
            b == self@.has_budget(),
    {
        self.bus.cycles() <= usize::MAX - STEP_CYCLES_MAX
    }

    /// Carries out a load or a store.
    pub fn load_store(&mut self, mnemonic: Mnemonic, mode: &AddressingMode)
        requires
            old(self)@.wf(),
            old(self)@.bus.cycles + 2 <= usize::MAX,
            mnemonic.spec_family() == Family::LoadStore,
            mnemonic.takes(*mode),
        ensures
            final(self)@ == old(self)@.perform(mnemonic, *mode),
            final(self)@.within(old(self)@, 2),
    {
        proof {
            reveal(CpuState::perform);
        }
        match mnemonic {
            Mnemonic::Lda => self.lda(mode),
            Mnemonic::Ldx => self.ldx(mode),
            Mnemonic::Ldy => self.ldy(mode),
            Mnemonic::Sta => self.sta(mode),
            Mnemonic::Stx => self.stx(mode),
            _ => self.sty(mode),
        }
    }

    /// Carries out an addition, a subtraction, a logic operation or BIT.
    pub fn arithmetic(&mut self, mnemonic: Mnemonic, mode: &AddressingMode)
        requires
            old(self)@.wf(),
            old(self)@.bus.cycles + 2 <= usize::MAX,
            mnemonic.spec_family() == Family::Arithmetic,
            mnemonic.takes(*mode),
        ensures
            final(self)@ == old(self)@.perform(mnemonic, *mode),
            final(self)@.within(old(self)@, 2),
    {
        proof {
            reveal(CpuState::perform);
        }
        match mnemonic {
            Mnemonic::Adc => self.adc(mode),
            Mnemonic::Sbc => self.sbc(mode),
            Mnemonic::And => self.and(mode),
            Mnemonic::Ora => self.ora(mode),
            Mnemonic::Eor => self.eor(mode),
            _ => self.bit(mode),
        }
    }

    /// Carries out a shift or a rotation, on A or on memory.
    pub fn shift(&mut self, mnemonic: Mnemonic, mode: &AddressingMode)
        requires
            old(self)@.wf(),
            mnemonic.spec_family() == Family::Shift,
            mnemonic.takes(*mode),
        ensures
            final(self)@ == old(self)@.perform(mnemonic, *mode),
            final(self)@.within(old(self)@, 2),
    {
        proof {
            reveal(CpuState::perform);
        }
        match mnemonic {
            Mnemonic::Asl => match mode {
                AddressingMode::Accumulator => {
                    self.asl_acc();
                },
                _ => {
                    self.asl(mode);
                },
            },
            Mnemonic::Lsr => match mode {
                AddressingMode::Accumulator => {
                    self.lsr_acc();
                },
                _ => {
                    self.lsr(mode);
                },
            },
            Mnemonic::Rol => match mode {
                AddressingMode::Accumulator => self.rol_acc(),
                _ => self.rol(mode),
            },
            _ => match mode {
                AddressingMode::Accumulator => self.ror_acc(),
                _ => self.ror(mode),
            },
        }
    }

    /// Carries out a comparison, an increment or a decrement.
    pub fn count(&mut self, mnemonic: Mnemonic, mode: &AddressingMode)
        requires
            old(self)@.wf(),
            old(self)@.bus.cycles + 2 <= usize::MAX,
            mnemonic.spec_family() == Family::Count,
            mnemonic.takes(*mode),
        ensures
            final(self)@ == old(self)@.perform(mnemonic, *mode),
            final(self)@.within(old(self)@, 2),
    {
        proof {
            reveal(CpuState::perform);
        }
        match mnemonic {
            Mnemonic::Cmp => {
                let reg: u8 = self.reg_a;
                self.compare(mode, reg)
            },
            Mnemonic::Cpx => {
                let reg: u8 = self.reg_x;
                self.compare(mode, reg)
            },
            Mnemonic::Cpy => {
                let reg: u8 = self.reg_y;
                self.compare(mode, reg)
            },
            Mnemonic::Inc => {
                self.inc(mode);
            },
            Mnemonic::Dec => {
                self.dec(mode);
            },
            Mnemonic::Inx => self.incx(),
            Mnemonic::Iny => self.incy(),
            Mnemonic::Dex => self.dex(),
            _ => self.dey(),
        }
    }

    /// Carries out a conditional branch.
    pub fn branch_on(&mut self, mnemonic: Mnemonic, mode: &AddressingMode)
        requires
            old(self)@.wf(),
            old(self)@.bus.cycles + 2 <= usize::MAX,
            mnemonic.spec_family() == Family::Branch,
            mnemonic.takes(*mode),
        ensures
            final(self)@ == old(self)@.perform(mnemonic, *mode),
            final(self)@.within(old(self)@, 2),
    {
        proof {
            reveal(CpuState::perform);
        }
        match mnemonic {
            Mnemonic::Bcc => {
                let taken: bool = !self.status.contains(CpuFlags::CARRY);
                self.branch(taken)
            },
            Mnemonic::Bcs => {
                let taken: bool = self.status.contains(CpuFlags::CARRY);
                self.branch(taken)
            },
            Mnemonic::Beq => {
                let taken: bool = self.status.contains(CpuFlags::ZERO);
                self.branch(taken)
            },
            Mnemonic::Bmi => {
                let taken: bool = self.status.contains(CpuFlags::NEGATIVE);
                self.branch(taken)
            },
            Mnemonic::Bne => {
                let taken: bool = !self.status.contains(CpuFlags::ZERO);
                self.branch(taken)
            },
            Mnemonic::Bpl => {
                let taken: bool = !self.status.contains(CpuFlags::NEGATIVE);
                self.branch(taken)
            },
            Mnemonic::Bvc => {
                let taken: bool = !self.status.contains(CpuFlags::OVERFLOW);
                self.branch(taken)
            },
            _ => {
                let taken: bool = self.status.contains(CpuFlags::OVERFLOW);
                self.branch(taken)
            },
        }
    }

    /// Carries out a register transfer or a stack instruction.
    pub fn transfer(&mut self, mnemonic: Mnemonic, mode: &AddressingMode)
        requires
            old(self)@.wf(),
            mnemonic.spec_family() == Family::Transfer,
            mnemonic.takes(*mode),
        ensures
            final(self)@ == old(self)@.perform(mnemonic, *mode),
            final(self)@.within(old(self)@, 2),
    {
        proof {
            reveal(CpuState::perform);
        }
        match mnemonic {
            Mnemonic::Tax => self.tax(),
            Mnemonic::Tay => self.tay(),
            Mnemonic::Txa => self.txa(),
            Mnemonic::Tya => self.tya(),
            Mnemonic::Tsx => self.tsx(),
            Mnemonic::Txs => self.txs(),
            Mnemonic::Pha => self.pha(),
            Mnemonic::Pla => self.pla(),
            Mnemonic::Php => self.php(),
            _ => self.plp(),
        }
    }

    /// Carries out a jump, a call or a return. NOP does nothing, and BRK
    /// nothing here: it ends the run before it gets this far.
    pub fn jump(&mut self, mnemonic: Mnemonic, mode: &AddressingMode)
        requires
            old(self)@.wf(),
            mnemonic.spec_family() == Family::Jump,
            mnemonic.takes(*mode),
        ensures
            final(self)@ == old(self)@.perform(mnemonic, *mode),
            final(self)@.within(old(self)@, 2),
    {
        proof {
            reveal(CpuState::perform);
        }
        match mnemonic {
            Mnemonic::Jmp => self.jmp(mode),
            Mnemonic::Jsr => self.jsr(),
            Mnemonic::Rts => self.rts(),
            Mnemonic::Rti => self.rti(),
            Mnemonic::Brk => {},
            _ => {},
        }
    }

    /// Sets or clears one flag.
    pub fn flag_op(&mut self, mnemonic: Mnemonic, mode: &AddressingMode)
        requires
            old(self)@.wf(),
            mnemonic.spec_family() == Family::Flag,
            mnemonic.takes(*mode),
        ensures
            final(self)@ == old(self)@.perform(mnemonic, *mode),
            final(self)@.within(old(self)@, 2),
    {
        proof {
            reveal(CpuState::perform);
        }
        match mnemonic {
            Mnemonic::Clc => self.status.remove(CpuFlags::CARRY),
            Mnemonic::Sec => self.status.insert(CpuFlags::CARRY),
            Mnemonic::Cli => self.status.remove(CpuFlags::INTERRUPT_DISABLE),
            Mnemonic::Sei => self.sei(),
            Mnemonic::Cld => self.cld(),
            Mnemonic::Sed => self.sed(),
            _ => self.status.remove(CpuFlags::OVERFLOW),
        }
    }

    /// Carries out the instruction `mnemonic`, short of moving past its
    /// operand and of its base cycles.
    pub fn perform(&mut self, mnemonic: Mnemonic, mode: &AddressingMode)
        requires
            old(self)@.wf(),
            old(self)@.bus.cycles + 2 <= usize::MAX,
            mnemonic.takes(*mode),
        ensures
            final(self)@ == old(self)@.perform(mnemonic, *mode),
            final(self)@.within(old(self)@, 2),
    {
        match mnemonic.family() {
            Family::LoadStore => self.load_store(mnemonic, mode),
            Family::Arithmetic => self.arithmetic(mnemonic, mode),
            Family::Shift => self.shift(mnemonic, mode),
            Family::Count => self.count(mnemonic, mode),
            Family::Branch => self.branch_on(mnemonic, mode),
            Family::Transfer => self.transfer(mnemonic, mode),
            Family::Jump => self.jump(mnemonic, mode),
            Family::Flag => self.flag_op(mnemonic, mode),
        }
    }

    /// Carries out an instruction whose opcode has been fetched, moves the
    /// program counter behind it, and lets its cycles pass.
    pub fn execute(&mut self, op: OpCode)
        requires
            old(self)@.wf(),
            old(self)@.has_budget(),
            op.wf(),
        ensures
            final(self)@ == old(self)@.execute(op),
            final(self)@.wf(),
            old(self)@.bus.cycles < final(self)@.bus.cycles <= old(self)@.bus.cycles
                + STEP_CYCLES_MAX,
    {
        proof {
            reveal(CpuState::execute);
        }
        self.perform(op.mnemonic, &op.mode);
        if !op.mnemonic.sets_pc() {
            self.pc = self.pc.wrapping_add((op.len - 1) as u16);
        }
        self.tick(op.cycles);
        proof {
            lemma_stall_bounded(self@.bus);
        }
        self.settle_dma();
    }

    /// Enters the interrupt handler if the PPU has raised the interrupt,
    /// and tells whether it did.
    pub fn service_nmi(&mut self) -> (taken: bool)
        requires
            old(self)@.wf(),
            old(self)@.has_budget(),
        ensures
            taken == old(self)@.bus.ppu.nmi_pending,
            taken ==> final(self)@ == old(self)@.service_nmi(),
            !taken ==> final(self)@ == old(self)@,
            final(self)@.wf(),
            taken ==> old(self)@.bus.cycles < final(self)@.bus.cycles,
    {
        proof {
            reveal(CpuState::service_nmi);
        }
        if let Some(_nmi) = self.bus.poll_nmi_status() {
            self.interrupt(InterruptType::NMI);
            proof {
                lemma_stall_bounded(self@.bus);
            }
            self.settle_dma();
            true
        } else {
            false
        }
    }

    /// Fetches and carries out one instruction. BRK and an undefined
    /// opcode stop the run.
    pub fn step_instruction(&mut self) -> (halt: Option<Halt>)
        requires
            old(self)@.wf(),
            old(self)@.has_budget(),
        ensures
            (final(self)@, halt) == old(self)@.step_instruction(),
            final(self)@.wf(),
            halt is None ==> old(self)@.bus.cycles < final(self)@.bus.cycles,
            halt is Some ==> old(self)@.bus.cycles == final(self)@.bus.cycles,
    {
        proof {
            reveal(CpuState::step_instruction);
        }
        let code: u8 = self.mem_read(self.pc);
        self.pc = self.pc.wrapping_add(1);
        match decode(code) {
            None => Some(Halt::UnknownOpcode(code)),
            Some(op) => {
                match op.mnemonic {
                    Mnemonic::Brk => Some(Halt::Break),
                    _ => {
                        self.execute(op);
                        None
                    },
                }
            },
        }
    }

    /// One step of the machine: the entry into the interrupt handler where
    /// the PPU has raised the interrupt, else one instruction. Returns the
    /// reason where the run ends here.
    pub fn step(&mut self) -> (halt: Option<Halt>)
        requires
            old(self)@.wf(),
        ensures
            (final(self)@, halt) == old(self)@.step(),
            final(self)@.wf(),
            halt is None ==> old(self)@.bus.cycles < final(self)@.bus.cycles,
    {
        proof {
            reveal(CpuState::step);
        }
        if !self.has_budget() {
            return Some(Halt::ClockExhausted);
        }
        if self.service_nmi() {
            return None;
        }
        self.step_instruction()
    }

    /// Runs the machine until BRK, an undefined opcode or the end of the
    /// clock, and calls `callback` before each instruction is fetched.
    ///
    /// The callback may change the machine, as long as it leaves it well
    /// formed and does not turn the clock back. Where the callback changes
    /// nothing, the run is the run of `CpuState::run`.
    pub fn run_with_callback<F>(&mut self, callback: F) -> (halt: Halt) where F: FnMut(&mut CPU)
        requires
            old(self)@.wf(),
            forall|cpu: &mut CPU| cpu@.wf() ==> call_requires(callback, (cpu,)),
            forall|cpu: &mut CPU|
                cpu@.wf() && call_ensures(callback, (cpu,), ()) ==> final(cpu)@.wf()
                    && cpu@.bus.cycles <= final(cpu)@.bus.cycles,
        ensures
            final(self)@.wf(),
            old(self)@.bus.cycles <= final(self)@.bus.cycles,
            halt is ClockExhausted <==> !final(self)@.has_budget(),
            halt matches Halt::UnknownOpcode(code) ==> decode(code) is None,
            (forall|cpu: &mut CPU| call_ensures(callback, (cpu,), ()) ==> final(cpu)@ == cpu@) ==> (
            final(self)@,
            halt,
            ) == old(self)@.run(),
    {
        let mut hook = callback;
        loop
            invariant
                self@.wf(),
                hook == callback,
                old(self)@.bus.cycles <= self@.bus.cycles,
                forall|cpu: &mut CPU| cpu@.wf() ==> call_requires(callback, (cpu,)),
                forall|cpu: &mut CPU|
                    cpu@.wf() && call_ensures(callback, (cpu,), ()) ==> final(cpu)@.wf()
                        && cpu@.bus.cycles <= final(cpu)@.bus.cycles,
                (forall|cpu: &mut CPU| call_ensures(callback, (cpu,), ()) ==> final(cpu)@ == cpu@)
                    ==> self@.run() == old(self)@.run(),
            decreases usize::MAX - self@.bus.cycles,
        {
            proof {
                reveal(CpuState::step);
                reveal(CpuState::step_instruction);
            }
            let ghost start = self@;
            if !self.has_budget() {
                assert(start.run() == (start, Halt::ClockExhausted));
                return Halt::ClockExhausted;
            }
            if self.service_nmi() {
                assert(start.run() == self@.run());
                continue ;
            }
            hook(self);
            if !self.has_budget() {
                assert(self@ == start ==> start.run() == (start, Halt::ClockExhausted));
                return Halt::ClockExhausted;
            }
            let ghost fetched = self@;
            match self.step_instruction() {
                Some(halt) => {
                    assert(fetched == start ==> start.run() == (self@, halt));
                    return halt;
                },
                None => {
                    assert(fetched == start ==> start.run() == self@.run());
                },
            }
        }
    }

    /// Runs the machine until BRK, an undefined opcode or the end of the
    /// clock.
    pub fn run(&mut self) -> (halt: Halt)
        requires
            old(self)@.wf(),
        ensures
            (final(self)@, halt) == old(self)@.run(),
            final(self)@.wf(),
    {
        self.run_with_callback(|cpu: &mut CPU| ensures final(cpu)@ == old(cpu)@ {})
    }
}

} // verus!
