//! What the instructions mean: the processor and the machine behind it as
//! one value, and each instruction as a function from value to value.
//!
//! Reading memory can change the machine (a PPU register reacts to being
//! read), so a read yields the byte together with the machine after it.

use vstd::prelude::*;
use crate::comp::bus::BusState;
use crate::comp::cpu::spec_branch_target;
use crate::comp::cpu::spec_high_byte;
use crate::comp::cpu::spec_low_byte;
use crate::comp::cpu::spec_next_addr;
use crate::comp::cpu::spec_page_cross;
use crate::comp::cpu::spec_same_page_next;
use crate::comp::cpu::spec_word;
use crate::comp::cpu::AddressingMode;
use crate::comp::cpu::Halt;
use crate::comp::cpu::InterruptType;
use crate::comp::flags::CpuFlags;
use crate::comp::opcodes::spec_decode;
use crate::comp::opcodes::Mnemonic;
use crate::comp::opcodes::OpCode;

verus! {

/// The page that the stack lives in.
pub const STACK: u16 = 0x0100;

/// The stack pointer after a reset.
pub const STACK_RESET: u8 = 0xFD;

/// The status register after a reset: interrupts disabled, the unused bit
/// set.
pub const STATUS_RESET: u8 = 0b0010_0100;

pub const NMI_VECTOR: u16 = 0xFFFA;

pub const RESET_VECTOR: u16 = 0xFFFC;

pub const BRK_VECTOR: u16 = 0xFFFE;

/// The most cycles that one step can take: the longest instruction, a
/// taken branch across a page, and a sprite DMA on an odd cycle.
pub const STEP_CYCLES_MAX: usize = 523;

/// A byte shifted left by one bit; bit 7 falls out.
pub open spec fn spec_shift_left(m: u8) -> u8 {
    ((m * 2) % 256) as u8
}

/// A byte shifted right by one bit; bit 0 falls out.
pub open spec fn spec_shift_right(m: u8) -> u8 {
    m / 2
}

/// A byte rotated left through the carry: the carry comes in as bit 0.
pub open spec fn spec_rotate_left(m: u8, carry_in: u8) -> u8 {
    ((m * 2) % 256 + carry_in) as u8
}

/// A byte rotated right through the carry: the carry comes in as bit 7.
pub open spec fn spec_rotate_right(m: u8, carry_in: u8) -> u8 {
    (m / 2 + carry_in * 128) as u8
}

/// The low 8 bits of `a + m + carry_in`.
pub open spec fn spec_sum(a: u8, m: u8, carry_in: u8) -> u8 {
    ((a + m + carry_in) % 256) as u8
}

/// Whether an addition overflowed as a signed one: the operands have the
/// same sign and the result has the other.
pub open spec fn spec_signed_overflow(a: u8, m: u8, res: u8) -> bool {
    (a ^ res) & (m ^ res) & 0x80 != 0
}

/// The processor and the machine behind it, as a value.
pub struct CpuState {
    pub a: u8,
    pub x: u8,
    pub y: u8,
    pub status: CpuFlags,
    pub pc: u16,
    pub sp: u8,
    /// Cycles that the processor has spent since its reset.
    pub cycles: usize,
    pub bus: BusState,
}

impl CpuState {
    /// The bus is well formed, and the processor has spent no more cycles
    /// than the machine has run.
    pub open spec fn wf(self) -> bool {
        &&& self.bus.wf()
        &&& self.cycles <= self.bus.cycles
    }

    /// Whether the clock has room for another step.
    pub open spec fn has_budget(self) -> bool {
        self.bus.cycles + STEP_CYCLES_MAX <= usize::MAX
    }

    /// Whether this machine is what `before` can have become in at most `n`
    /// cycles: well formed, and its clock no more than `n` cycles on.
    pub open spec fn within(self, before: CpuState, n: int) -> bool {
        &&& self.wf()
        &&& before.bus.cycles <= self.bus.cycles <= before.bus.cycles + n
    }

    /// A read at `addr`: the byte, and the machine after the read.
    pub open spec fn read(self, addr: u16) -> (u8, CpuState) {
        (self.bus.read_value(addr), CpuState { bus: self.bus.after_read(addr), ..self })
    }

    /// A read of the word at `pos`: low byte first.
    pub open spec fn read_u16(self, pos: u16) -> (u16, CpuState) {
        let (lo, s1) = self.read(pos);
        let (hi, s2) = s1.read(spec_next_addr(pos));
        (spec_word(lo, hi), s2)
    }

    /// The machine after `data` is written at `addr`.
    pub open spec fn write(self, addr: u16, data: u8) -> CpuState {
        CpuState { bus: self.bus.after_write(addr, data), ..self }
    }

    /// The machine after the word `data` is written at `pos`: low byte
    /// first.
    pub open spec fn write_u16(self, pos: u16, data: u16) -> CpuState {
        self.write(pos, spec_low_byte(data)).write(spec_next_addr(pos), spec_high_byte(data))
    }

    /// The machine `n` CPU cycles later.
    pub open spec fn tick(self, n: nat) -> CpuState {
        CpuState { cycles: (self.cycles + n) as usize, bus: self.bus.tick(n), ..self }
    }

    /// The machine after the cycles of a sprite DMA, if one is outstanding,
    /// have been charged.
    pub open spec fn settle_dma(self) -> CpuState {
        CpuState {
            cycles: (self.cycles + self.bus.dma_stall) as usize,
            bus: self.bus.settle_dma(),
            ..self
        }
    }

    /// The machine one cycle later where a page was crossed.
    pub open spec fn page_penalty(self, crossed: bool) -> CpuState {
        if crossed {
            self.tick(1)
        } else {
            self
        }
    }

    /// The machine after a byte is pushed: it is stored at `$0100 + S`, and
    /// S steps down, from `$00` to `$FF`.
    pub open spec fn push(self, data: u8) -> CpuState {
        CpuState {
            sp: self.sp.wrapping_sub(1),
            ..self.write((STACK + self.sp) as u16, data)
        }
    }

    /// The machine after a word is pushed: high byte first.
    pub open spec fn push_u16(self, data: u16) -> CpuState {
        self.push(spec_high_byte(data)).push(spec_low_byte(data))
    }

    /// A pop: S steps up, from `$FF` to `$00`, and the byte at `$0100 + S`
    /// is read.
    pub open spec fn pop(self) -> (u8, CpuState) {
        let sp = self.sp.wrapping_add(1);
        CpuState { sp, ..self }.read((STACK + sp) as u16)
    }

    /// A pop of a word: low byte first.
    pub open spec fn pop_u16(self) -> (u16, CpuState) {
        let (lo, s1) = self.pop();
        let (hi, s2) = s1.pop();
        (spec_word(lo, hi), s2)
    }

    /// The program as the processor has it after it was loaded: its bytes
    /// up to the `n`th written from address 0 on.
    pub open spec fn write_program(self, program: Seq<u8>, n: nat) -> CpuState
        decreases n,
    {
        if n == 0 {
            self
        } else {
            self.write_program(program, (n - 1) as nat).write((n - 1) as u16, program[n - 1])
        }
    }

    /// The machine after a program is loaded: its bytes go to address 0 and
    /// up (as many as a 16-bit count holds), and the reset vector is
    /// pointed at address 0.
    #[verifier::opaque]
    pub open spec fn load(self, program: Seq<u8>) -> CpuState {
        self.write_program(program, (program.len() % 0x10000) as nat).write_u16(RESET_VECTOR, 0)
    }

    /// The machine after a reset: A and X cleared, the status and the stack
    /// pointer at their reset values, the cycle count at 0, and the program
    /// counter read from the reset vector.
    #[verifier::opaque]
    pub open spec fn reset(self) -> CpuState {
        let (pc, s) = self.read_u16(RESET_VECTOR);
        CpuState {
            a: 0,
            x: 0,
            status: CpuFlags { bits: STATUS_RESET },
            sp: STACK_RESET,
            cycles: 0,
            pc,
            ..s
        }
    }

    /// The address that an instruction works on, whether reaching it
    /// crossed a page, and the machine after the reads that found it. The
    /// program counter stands at the instruction's second byte.
    #[verifier::opaque]
    pub open spec fn operand_address(self, mode: AddressingMode) -> (u16, bool, CpuState) {
        match mode {
            AddressingMode::Immediate => (self.pc, false, self),
            AddressingMode::ZeroPage => {
                let (pos, s) = self.read(self.pc);
                (pos as u16, false, s)
            },
            AddressingMode::ZeroPage_X => {
                let (pos, s) = self.read(self.pc);
                (pos.wrapping_add(self.x) as u16, false, s)
            },
            AddressingMode::ZeroPage_Y => {
                let (pos, s) = self.read(self.pc);
                (pos.wrapping_add(self.y) as u16, false, s)
            },
            AddressingMode::Absolute => {
                let (addr, s) = self.read_u16(self.pc);
                (addr, false, s)
            },
            AddressingMode::Absolute_X => {
                let (base, s) = self.read_u16(self.pc);
                let addr = base.wrapping_add(self.x as u16);
                (addr, spec_page_cross(base, addr), s)
            },
            AddressingMode::Absolute_Y => {
                let (base, s) = self.read_u16(self.pc);
                let addr = base.wrapping_add(self.y as u16);
                (addr, spec_page_cross(base, addr), s)
            },
            AddressingMode::Indirect => {
                let (ptr, s1) = self.read_u16(self.pc);
                let (lo, s2) = s1.read(ptr);
                let (hi, s3) = s2.read(spec_same_page_next(ptr));
                (spec_word(lo, hi), false, s3)
            },
            AddressingMode::Indirect_X => {
                let (base, s1) = self.read(self.pc);
                let ptr = base.wrapping_add(self.x);
                let (lo, s2) = s1.read(ptr as u16);
                let (hi, s3) = s2.read(ptr.wrapping_add(1) as u16);
                (spec_word(lo, hi), false, s3)
            },
            AddressingMode::Indirect_Y => {
                let (base, s1) = self.read(self.pc);
                let (lo, s2) = s1.read(base as u16);
                let (hi, s3) = s2.read(base.wrapping_add(1) as u16);
                let deref_base = spec_word(lo, hi);
                let addr = deref_base.wrapping_add(self.y as u16);
                (addr, spec_page_cross(addr, deref_base), s3)
            },
            _ => (0, false, self),
        }
    }

    /// The byte that an instruction works on, whether reaching it crossed a
    /// page, and the machine after it was read.
    #[verifier::opaque]
    pub open spec fn operand(self, mode: AddressingMode) -> (u8, bool, CpuState) {
        let (addr, crossed, s1) = self.operand_address(mode);
        let (m, s2) = s1.read(addr);
        (m, crossed, s2)
    }

    /// The machine with `v` in A, and Z and N set by `v`.
    pub open spec fn set_a(self, v: u8) -> CpuState {
        CpuState { a: v, status: self.status.with_zn(v), ..self }
    }

    /// The machine with `v` in X, and Z and N set by `v`.
    pub open spec fn set_x(self, v: u8) -> CpuState {
        CpuState { x: v, status: self.status.with_zn(v), ..self }
    }

    /// The machine with `v` in Y, and Z and N set by `v`.
    pub open spec fn set_y(self, v: u8) -> CpuState {
        CpuState { y: v, status: self.status.with_zn(v), ..self }
    }

    /// The machine with one flag set or cleared.
    pub open spec fn flag(self, flag: u8, on: bool) -> CpuState {
        CpuState { status: self.status.with(flag, on), ..self }
    }

    /// The machine after `m` and the carry are added to A: C is the carry
    /// out of bit 7, V tells a signed overflow, Z and N follow the sum.
    #[verifier::opaque]
    pub open spec fn add_to_a(self, m: u8) -> CpuState {
        let carry_in = self.status.carry_in();
        let res = spec_sum(self.a, m, carry_in);
        CpuState {
            a: res,
            status: self.status.with(CpuFlags::CARRY, self.a + m + carry_in > 0xFF).with(
                CpuFlags::OVERFLOW,
                spec_signed_overflow(self.a, m, res),
            ).with_zn(res),
            ..self
        }
    }

    /// LDA: the operand goes to A.
    #[verifier::opaque]
    pub open spec fn lda(self, mode: AddressingMode) -> CpuState {
        let (m, crossed, s) = self.operand(mode);
        s.set_a(m).page_penalty(crossed)
    }

    /// LDX: the operand goes to X.
    #[verifier::opaque]
    pub open spec fn ldx(self, mode: AddressingMode) -> CpuState {
        let (m, crossed, s) = self.operand(mode);
        s.set_x(m).page_penalty(crossed)
    }

    /// LDY: the operand goes to Y.
    #[verifier::opaque]
    pub open spec fn ldy(self, mode: AddressingMode) -> CpuState {
        let (m, crossed, s) = self.operand(mode);
        s.set_y(m).page_penalty(crossed)
    }

    /// STA: A goes to memory.
    #[verifier::opaque]
    pub open spec fn sta(self, mode: AddressingMode) -> CpuState {
        let (addr, crossed, s) = self.operand_address(mode);
        s.write(addr, self.a)
    }

    /// STX: X goes to memory.
    #[verifier::opaque]
    pub open spec fn stx(self, mode: AddressingMode) -> CpuState {
        let (addr, crossed, s) = self.operand_address(mode);
        s.write(addr, self.x)
    }

    /// STY: Y goes to memory.
    #[verifier::opaque]
    pub open spec fn sty(self, mode: AddressingMode) -> CpuState {
        let (addr, crossed, s) = self.operand_address(mode);
        s.write(addr, self.y)
    }

    /// ADC: `A = A + M + C`.
    #[verifier::opaque]
    pub open spec fn adc(self, mode: AddressingMode) -> CpuState {
        let (m, crossed, s) = self.operand(mode);
        s.add_to_a(m).page_penalty(crossed)
    }

    /// SBC: `A = A - M - (1 - C)`, carried out as the addition of the
    /// complement of `M`.
    #[verifier::opaque]
    pub open spec fn sbc(self, mode: AddressingMode) -> CpuState {
        let (m, crossed, s) = self.operand(mode);
        s.add_to_a(m ^ 0xFF).page_penalty(crossed)
    }

    /// AND: `A = A & M`.
    #[verifier::opaque]
    pub open spec fn and(self, mode: AddressingMode) -> CpuState {
        let (m, crossed, s) = self.operand(mode);
        s.set_a(s.a & m).page_penalty(crossed)
    }

    /// ORA: `A = A | M`.
    #[verifier::opaque]
    pub open spec fn ora(self, mode: AddressingMode) -> CpuState {
        let (m, crossed, s) = self.operand(mode);
        s.set_a(m | s.a).page_penalty(crossed)
    }

    /// EOR: `A = A ^ M`.
    #[verifier::opaque]
    pub open spec fn eor(self, mode: AddressingMode) -> CpuState {
        let (m, crossed, s) = self.operand(mode);
        s.set_a(m ^ s.a).page_penalty(crossed)
    }

    /// CMP, CPX, CPY: C tells whether the register is at least `M`; Z and N
    /// follow their difference.
    #[verifier::opaque]
    pub open spec fn compare(self, mode: AddressingMode, reg: u8) -> CpuState {
        let (m, crossed, s) = self.operand(mode);
        CpuState {
            status: s.status.with(CpuFlags::CARRY, m <= reg).with_zn(reg.wrapping_sub(m)),
            ..s
        }.page_penalty(crossed)
    }

    /// BIT: Z tells whether `A & M` is zero; N and V are bits 7 and 6 of
    /// `M`.
    #[verifier::opaque]
    pub open spec fn bit(self, mode: AddressingMode) -> CpuState {
        let (m, crossed, s) = self.operand(mode);
        CpuState {
            status: s.status.with(CpuFlags::ZERO, s.a & m == 0).with(
                CpuFlags::NEGATIVE,
                m & 0b1000_0000 != 0,
            ).with(CpuFlags::OVERFLOW, m & 0b0100_0000 != 0),
            ..s
        }
    }

    /// The machine after an instruction has replaced the byte `m` at `addr`
    /// by `res`, with `carry` shifted out.
    pub open spec fn shifted(self, addr: u16, res: u8, carry: bool) -> CpuState {
        CpuState {
            status: self.status.with(CpuFlags::CARRY, carry).with_zn(res),
            ..self.write(addr, res)
        }
    }

    /// The machine after an instruction has replaced A by `res`, with
    /// `carry` shifted out.
    pub open spec fn shifted_acc(self, res: u8, carry: bool) -> CpuState {
        CpuState { a: res, status: self.status.with(CpuFlags::CARRY, carry).with_zn(res), ..self }
    }

    /// ASL on memory.
    #[verifier::opaque]
    pub open spec fn asl(self, mode: AddressingMode) -> CpuState {
        let (addr, crossed, s1) = self.operand_address(mode);
        let (m, s2) = s1.read(addr);
        s2.shifted(addr, spec_shift_left(m), m >= 128)
    }

    /// ASL on A.
    pub open spec fn asl_acc(self) -> CpuState {
        self.shifted_acc(spec_shift_left(self.a), self.a >= 128)
    }

    /// LSR on memory.
    #[verifier::opaque]
    pub open spec fn lsr(self, mode: AddressingMode) -> CpuState {
        let (addr, crossed, s1) = self.operand_address(mode);
        let (m, s2) = s1.read(addr);
        s2.shifted(addr, spec_shift_right(m), m % 2 == 1)
    }

    /// LSR on A.
    pub open spec fn lsr_acc(self) -> CpuState {
        self.shifted_acc(spec_shift_right(self.a), self.a % 2 == 1)
    }

    /// ROL on memory.
    #[verifier::opaque]
    pub open spec fn rol(self, mode: AddressingMode) -> CpuState {
        let (addr, crossed, s1) = self.operand_address(mode);
        let (m, s2) = s1.read(addr);
        s2.shifted(addr, spec_rotate_left(m, s2.status.carry_in()), m >= 128)
    }

    /// ROL on A.
    pub open spec fn rol_acc(self) -> CpuState {
        self.shifted_acc(spec_rotate_left(self.a, self.status.carry_in()), self.a >= 128)
    }

    /// ROR on memory.
    #[verifier::opaque]
    pub open spec fn ror(self, mode: AddressingMode) -> CpuState {
        let (addr, crossed, s1) = self.operand_address(mode);
        let (m, s2) = s1.read(addr);
        s2.shifted(addr, spec_rotate_right(m, s2.status.carry_in()), m % 2 == 1)
    }

    /// ROR on A.
    pub open spec fn ror_acc(self) -> CpuState {
        self.shifted_acc(spec_rotate_right(self.a, self.status.carry_in()), self.a % 2 == 1)
    }

    /// INC: memory plus 1, within a byte.
    #[verifier::opaque]
    pub open spec fn inc(self, mode: AddressingMode) -> CpuState {
        let (addr, crossed, s1) = self.operand_address(mode);
        let (m, s2) = s1.read(addr);
        let res = m.wrapping_add(1);
        CpuState { status: s2.status.with_zn(res), ..s2.write(addr, res) }
    }

    /// DEC: memory minus 1, within a byte.
    #[verifier::opaque]
    pub open spec fn dec(self, mode: AddressingMode) -> CpuState {
        let (addr, crossed, s1) = self.operand_address(mode);
        let (m, s2) = s1.read(addr);
        let res = m.wrapping_sub(1);
        CpuState { status: s2.status.with_zn(res), ..s2.write(addr, res) }
    }

    /// PHA: A goes to the stack.
    #[verifier::opaque]
    pub open spec fn pha(self) -> CpuState {
        self.push(self.a)
    }

    /// PLA: A comes from the stack.
    #[verifier::opaque]
    pub open spec fn pla(self) -> CpuState {
        let (m, s) = self.pop();
        s.set_a(m)
    }

    /// PHP: the status goes to the stack with B and the unused bit set.
    #[verifier::opaque]
    pub open spec fn php(self) -> CpuState {
        self.push(self.status.bits | CpuFlags::BREAK | CpuFlags::UNUSED)
    }

    /// PLP: the status comes from the stack, but for B, which stays clear,
    /// and the unused bit, which stays set.
    #[verifier::opaque]
    pub open spec fn plp(self) -> CpuState {
        let (m, s) = self.pop();
        CpuState { status: CpuFlags { bits: (m & !CpuFlags::BREAK) | CpuFlags::UNUSED }, ..s }
    }

    /// RTI: the status is pulled as by PLP, then the program counter.
    #[verifier::opaque]
    pub open spec fn rti(self) -> CpuState {
        let (m, s1) = self.pop();
        let (pc, s2) = s1.pop_u16();
        CpuState {
            status: (CpuFlags { bits: m }).with(CpuFlags::BREAK, false).with(
                CpuFlags::UNUSED,
                true,
            ),
            pc,
            ..s2
        }
    }

    /// RTS: the program counter is pulled and stepped past the last byte of
    /// the JSR that pushed it.
    #[verifier::opaque]
    pub open spec fn rts(self) -> CpuState {
        let (pc, s) = self.pop_u16();
        CpuState { pc: pc.wrapping_add(1), ..s }
    }

    /// JSR: the address of its own last byte is pushed, then the program
    /// counter is set to its operand.
    #[verifier::opaque]
    pub open spec fn jsr(self) -> CpuState {
        let s1 = self.push_u16(self.pc.wrapping_add(1));
        let (target, s2) = s1.read_u16(s1.pc);
        CpuState { pc: target, ..s2 }
    }

    /// JMP, absolute or indirect.
    #[verifier::opaque]
    pub open spec fn jmp(self, mode: AddressingMode) -> CpuState {
        let (addr, crossed, s) = self.operand_address(mode);
        CpuState { pc: addr, ..s }
    }

    /// A branch: the offset is read; where the branch is taken it costs a
    /// cycle, and one more where the target lies in another page than the
    /// next instruction.
    #[verifier::opaque]
    pub open spec fn branch(self, taken: bool) -> CpuState {
        let (offset, s) = self.read(self.pc);
        let next = self.pc.wrapping_add(1);
        if taken {
            let target = spec_branch_target(next, offset);
            CpuState { pc: target, ..s }.tick(
                if spec_page_cross(next, target) {
                    2
                } else {
                    1
                },
            )
        } else {
            CpuState { pc: next, ..s }
        }
    }

    /// The entry into an interrupt: the return address and the status are
    /// pushed (the status with the unused bit set, and with B set only for
    /// BRK), interrupts are disabled, the entry's cycles pass, and the
    /// program counter is read from the interrupt's vector. The return
    /// address is the program counter, and for BRK the address after it.
    #[verifier::opaque]
    pub open spec fn interrupt(self, kind: InterruptType) -> CpuState {
        let s1 = self.push_u16(self.pc.wrapping_add(kind.spec_return_offset())).push(
            self.status.with(CpuFlags::BREAK, kind.spec_b_flag()).with(CpuFlags::UNUSED, true).bits,
        ).flag(CpuFlags::INTERRUPT_DISABLE, true).tick(kind.spec_cpu_cycles() as nat);
        let (pc, s2) = s1.read_u16(kind.spec_vector_addr());
        CpuState { pc, ..s2 }
    }

    /// What an instruction does, short of moving past its operand and of
    /// its base cycles. The program counter stands at the instruction's
    /// second byte.
    #[verifier::opaque]
    pub open spec fn perform(self, mnemonic: Mnemonic, mode: AddressingMode) -> CpuState {
        match mnemonic {
            Mnemonic::Adc => self.adc(mode),
            Mnemonic::And => self.and(mode),
            Mnemonic::Asl => if mode == AddressingMode::Accumulator {
                self.asl_acc()
            } else {
                self.asl(mode)
            },
            Mnemonic::Bcc => self.branch(!self.status.has(CpuFlags::CARRY)),
            Mnemonic::Bcs => self.branch(self.status.has(CpuFlags::CARRY)),
            Mnemonic::Beq => self.branch(self.status.has(CpuFlags::ZERO)),
            Mnemonic::Bit => self.bit(mode),
            Mnemonic::Bmi => self.branch(self.status.has(CpuFlags::NEGATIVE)),
            Mnemonic::Bne => self.branch(!self.status.has(CpuFlags::ZERO)),
            Mnemonic::Bpl => self.branch(!self.status.has(CpuFlags::NEGATIVE)),
            Mnemonic::Brk => self,
            Mnemonic::Bvc => self.branch(!self.status.has(CpuFlags::OVERFLOW)),
            Mnemonic::Bvs => self.branch(self.status.has(CpuFlags::OVERFLOW)),
            Mnemonic::Clc => self.flag(CpuFlags::CARRY, false),
            Mnemonic::Cld => self.flag(CpuFlags::DECIMAL_MODE, false),
            Mnemonic::Cli => self.flag(CpuFlags::INTERRUPT_DISABLE, false),
            Mnemonic::Clv => self.flag(CpuFlags::OVERFLOW, false),
            Mnemonic::Cmp => self.compare(mode, self.a),
            Mnemonic::Cpx => self.compare(mode, self.x),
            Mnemonic::Cpy => self.compare(mode, self.y),
            Mnemonic::Dec => self.dec(mode),
            Mnemonic::Dex => self.set_x(self.x.wrapping_sub(1)),
            Mnemonic::Dey => self.set_y(self.y.wrapping_sub(1)),
            Mnemonic::Eor => self.eor(mode),
            Mnemonic::Inc => self.inc(mode),
            Mnemonic::Inx => self.set_x(self.x.wrapping_add(1)),
            Mnemonic::Iny => self.set_y(self.y.wrapping_add(1)),
            Mnemonic::Jmp => self.jmp(mode),
            Mnemonic::Jsr => self.jsr(),
            Mnemonic::Lda => self.lda(mode),
            Mnemonic::Ldx => self.ldx(mode),
            Mnemonic::Ldy => self.ldy(mode),
            Mnemonic::Lsr => if mode == AddressingMode::Accumulator {
                self.lsr_acc()
            } else {
                self.lsr(mode)
            },
            Mnemonic::Nop => self,
            Mnemonic::Ora => self.ora(mode),
            Mnemonic::Pha => self.pha(),
            Mnemonic::Php => self.php(),
            Mnemonic::Pla => self.pla(),
            Mnemonic::Plp => self.plp(),
            Mnemonic::Rol => if mode == AddressingMode::Accumulator {
                self.rol_acc()
            } else {
                self.rol(mode)
            },
            Mnemonic::Ror => if mode == AddressingMode::Accumulator {
                self.ror_acc()
            } else {
                self.ror(mode)
            },
            Mnemonic::Rti => self.rti(),
            Mnemonic::Rts => self.rts(),
            Mnemonic::Sbc => self.sbc(mode),
            Mnemonic::Sec => self.flag(CpuFlags::CARRY, true),
            Mnemonic::Sed => self.flag(CpuFlags::DECIMAL_MODE, true),
            Mnemonic::Sei => self.flag(CpuFlags::INTERRUPT_DISABLE, true),
            Mnemonic::Sta => self.sta(mode),
            Mnemonic::Stx => self.stx(mode),
            Mnemonic::Sty => self.sty(mode),
            Mnemonic::Tax => self.set_x(self.a),
            Mnemonic::Tay => self.set_y(self.a),
            Mnemonic::Tsx => self.set_x(self.sp),
            Mnemonic::Txa => self.set_a(self.x),
            Mnemonic::Txs => CpuState { sp: self.x, ..self },
            Mnemonic::Tya => self.set_a(self.y),
        }
    }

    /// The opcode at the program counter, and the machine after it was
    /// fetched, the program counter behind it.
    pub open spec fn fetch(self) -> (u8, CpuState) {
        let (code, s) = self.read(self.pc);
        (code, CpuState { pc: self.pc.wrapping_add(1), ..s })
    }

    /// The machine after an instruction whose opcode has been fetched: the
    /// instruction is performed, the program counter moves behind its last
    /// byte unless the instruction set it, its base cycles pass, and then the
    /// cycles of a sprite DMA if the instruction started one.
    #[verifier::opaque]
    pub open spec fn execute(self, op: OpCode) -> CpuState {
        let s1 = self.perform(op.mnemonic, op.mode);
        let s2 = if op.mnemonic.spec_sets_pc() {
            s1
        } else {
            CpuState { pc: s1.pc.wrapping_add((op.len - 1) as u16), ..s1 }
        };
        s2.tick(op.cycles as nat).settle_dma()
    }

    /// The machine after the pending interrupt has been taken.
    #[verifier::opaque]
    pub open spec fn service_nmi(self) -> CpuState {
        CpuState { bus: self.bus.clear_nmi(), ..self }.interrupt(InterruptType::NMI).settle_dma()
    }

    /// One instruction: the machine after it and, where the instruction
    /// stops the run, the reason. BRK and an undefined opcode stop it, with
    /// the program counter behind the opcode.
    #[verifier::opaque]
    pub open spec fn step_instruction(self) -> (CpuState, Option<Halt>) {
        let (code, s) = self.fetch();
        match spec_decode(code) {
            None => (s, Some(Halt::UnknownOpcode(code))),
            Some(op) => if op.mnemonic == Mnemonic::Brk {
                (s, Some(Halt::Break))
            } else {
                (s.execute(op), None)
            },
        }
    }

    /// One step: nothing where the clock has no room for one; the entry
    /// into the interrupt where the PPU has raised it; else one
    /// instruction.
    #[verifier::opaque]
    pub open spec fn step(self) -> (CpuState, Option<Halt>) {
        if !self.has_budget() {
            (self, Some(Halt::ClockExhausted))
        } else if self.bus.ppu.nmi_pending {
            (self.service_nmi(), None)
        } else {
            self.step_instruction()
        }
    }

    /// The run: step after step until one of them stops it.
    pub open spec fn run(self) -> (CpuState, Halt)
        decreases usize::MAX - self.bus.cycles,
    {
        let (s, halt) = self.step();
        match halt {
            Some(h) => (s, h),
            None => if s.bus.cycles > self.bus.cycles {
                s.run()
            } else {
                (s, Halt::ClockExhausted)
            },
        }
    }
}

} // verus!
