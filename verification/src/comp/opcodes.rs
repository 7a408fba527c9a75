//! The instruction set: for each of the 151 official opcodes its mnemonic, its
//! addressing mode, its length in bytes and its base cycle count.

use vstd::prelude::*;
use crate::comp::cpu::AddressingMode;

verus! {

/// The 56 instructions of the 6502.
#[derive(Clone, Copy, Debug, PartialEq, Eq, Structural)]
pub enum Mnemonic {
    Adc,
    And,
    Asl,
    Bcc,
    Bcs,
    Beq,
    Bit,
    Bmi,
    Bne,
    Bpl,
    Brk,
    Bvc,
    Bvs,
    Clc,
    Cld,
    Cli,
    Clv,
    Cmp,
    Cpx,
    Cpy,
    Dec,
    Dex,
    Dey,
    Eor,
    Inc,
    Inx,
    Iny,
    Jmp,
    Jsr,
    Lda,
    Ldx,
    Ldy,
    Lsr,
    Nop,
    Ora,
    Pha,
    Php,
    Pla,
    Plp,
    Rol,
    Ror,
    Rti,
    Rts,
    Sbc,
    Sec,
    Sed,
    Sei,
    Sta,
    Stx,
    Sty,
    Tax,
    Tay,
    Tsx,
    Txa,
    Txs,
    Tya,
}

/// The families that the instructions fall into.
#[derive(Clone, Copy, Debug, PartialEq, Eq, Structural)]
pub enum Family {
    /// LDA, LDX, LDY, STA, STX, STY.
    LoadStore,
    /// ADC, SBC, AND, ORA, EOR, BIT.
    Arithmetic,
    /// ASL, LSR, ROL, ROR.
    Shift,
    /// CMP, CPX, CPY, INC, DEC, INX, INY, DEX, DEY.
    Count,
    /// The eight conditional branches.
    Branch,
    /// The register transfers and the stack instructions.
    Transfer,
    /// JMP, JSR, RTS, RTI, BRK, NOP.
    Jump,
    /// The instructions that set or clear one flag.
    Flag,
}

impl Mnemonic {
    /// The three capital letters that name the instruction.
    pub open spec fn spec_name(self) -> Seq<char> {
        match self {
            Mnemonic::Adc => seq!['A', 'D', 'C'],
            Mnemonic::And => seq!['A', 'N', 'D'],
            Mnemonic::Asl => seq!['A', 'S', 'L'],
            Mnemonic::Bcc => seq!['B', 'C', 'C'],
            Mnemonic::Bcs => seq!['B', 'C', 'S'],
            Mnemonic::Beq => seq!['B', 'E', 'Q'],
            Mnemonic::Bit => seq!['B', 'I', 'T'],
            Mnemonic::Bmi => seq!['B', 'M', 'I'],
            Mnemonic::Bne => seq!['B', 'N', 'E'],
            Mnemonic::Bpl => seq!['B', 'P', 'L'],
            Mnemonic::Brk => seq!['B', 'R', 'K'],
            Mnemonic::Bvc => seq!['B', 'V', 'C'],
            Mnemonic::Bvs => seq!['B', 'V', 'S'],
            Mnemonic::Clc => seq!['C', 'L', 'C'],
            Mnemonic::Cld => seq!['C', 'L', 'D'],
            Mnemonic::Cli => seq!['C', 'L', 'I'],
            Mnemonic::Clv => seq!['C', 'L', 'V'],
            Mnemonic::Cmp => seq!['C', 'M', 'P'],
            Mnemonic::Cpx => seq!['C', 'P', 'X'],
            Mnemonic::Cpy => seq!['C', 'P', 'Y'],
            Mnemonic::Dec => seq!['D', 'E', 'C'],
            Mnemonic::Dex => seq!['D', 'E', 'X'],
            Mnemonic::Dey => seq!['D', 'E', 'Y'],
            Mnemonic::Eor => seq!['E', 'O', 'R'],
            Mnemonic::Inc => seq!['I', 'N', 'C'],
            Mnemonic::Inx => seq!['I', 'N', 'X'],
            Mnemonic::Iny => seq!['I', 'N', 'Y'],
            Mnemonic::Jmp => seq!['J', 'M', 'P'],
            Mnemonic::Jsr => seq!['J', 'S', 'R'],
            Mnemonic::Lda => seq!['L', 'D', 'A'],
            Mnemonic::Ldx => seq!['L', 'D', 'X'],
            Mnemonic::Ldy => seq!['L', 'D', 'Y'],
            Mnemonic::Lsr => seq!['L', 'S', 'R'],
            Mnemonic::Nop => seq!['N', 'O', 'P'],
            Mnemonic::Ora => seq!['O', 'R', 'A'],
            Mnemonic::Pha => seq!['P', 'H', 'A'],
            Mnemonic::Php => seq!['P', 'H', 'P'],
            Mnemonic::Pla => seq!['P', 'L', 'A'],
            Mnemonic::Plp => seq!['P', 'L', 'P'],
            Mnemonic::Rol => seq!['R', 'O', 'L'],
            Mnemonic::Ror => seq!['R', 'O', 'R'],
            Mnemonic::Rti => seq!['R', 'T', 'I'],
            Mnemonic::Rts => seq!['R', 'T', 'S'],
            Mnemonic::Sbc => seq!['S', 'B', 'C'],
            Mnemonic::Sec => seq!['S', 'E', 'C'],
            Mnemonic::Sed => seq!['S', 'E', 'D'],
            Mnemonic::Sei => seq!['S', 'E', 'I'],
            Mnemonic::Sta => seq!['S', 'T', 'A'],
            Mnemonic::Stx => seq!['S', 'T', 'X'],
            Mnemonic::Sty => seq!['S', 'T', 'Y'],
            Mnemonic::Tax => seq!['T', 'A', 'X'],
            Mnemonic::Tay => seq!['T', 'A', 'Y'],
            Mnemonic::Tsx => seq!['T', 'S', 'X'],
            Mnemonic::Txa => seq!['T', 'X', 'A'],
            Mnemonic::Txs => seq!['T', 'X', 'S'],
            Mnemonic::Tya => seq!['T', 'Y', 'A'],
        }
    }

    /// The three capital letters that name the instruction.
    pub fn name(self) -> (s: &'static str)
        ensures
            s@ == self.spec_name(),
    {
        match self {
            Mnemonic::Adc => {
                proof {
                    reveal_strlit("ADC");
                }
                assert("ADC"@ =~= self.spec_name());
                "ADC"
            },
            Mnemonic::And => {
                proof {
                    reveal_strlit("AND");
                }
                assert("AND"@ =~= self.spec_name());
                "AND"
            },
            Mnemonic::Asl => {
                proof {
                    reveal_strlit("ASL");
                }
                assert("ASL"@ =~= self.spec_name());
                "ASL"
            },
            Mnemonic::Bcc => {
                proof {
                    reveal_strlit("BCC");
                }
                assert("BCC"@ =~= self.spec_name());
                "BCC"
            },
            Mnemonic::Bcs => {
                proof {
                    reveal_strlit("BCS");
                }
                assert("BCS"@ =~= self.spec_name());
                "BCS"
            },
            Mnemonic::Beq => {
                proof {
                    reveal_strlit("BEQ");
                }
                assert("BEQ"@ =~= self.spec_name());
                "BEQ"
            },
            Mnemonic::Bit => {
                proof {
                    reveal_strlit("BIT");
                }
                assert("BIT"@ =~= self.spec_name());
                "BIT"
            },
            Mnemonic::Bmi => {
                proof {
                    reveal_strlit("BMI");
                }
                assert("BMI"@ =~= self.spec_name());
                "BMI"
            },
            Mnemonic::Bne => {
                proof {
                    reveal_strlit("BNE");
                }
                assert("BNE"@ =~= self.spec_name());
                "BNE"
            },
            Mnemonic::Bpl => {
                proof {
                    reveal_strlit("BPL");
                }
                assert("BPL"@ =~= self.spec_name());
                "BPL"
            },
            Mnemonic::Brk => {
                proof {
                    reveal_strlit("BRK");
                }
                assert("BRK"@ =~= self.spec_name());
                "BRK"
            },
            Mnemonic::Bvc => {
                proof {
                    reveal_strlit("BVC");
                }
                assert("BVC"@ =~= self.spec_name());
                "BVC"
            },
            Mnemonic::Bvs => {
                proof {
                    reveal_strlit("BVS");
                }
                assert("BVS"@ =~= self.spec_name());
                "BVS"
            },
            Mnemonic::Clc => {
                proof {
                    reveal_strlit("CLC");
                }
                assert("CLC"@ =~= self.spec_name());
                "CLC"
            },
            Mnemonic::Cld => {
                proof {
                    reveal_strlit("CLD");
                }
                assert("CLD"@ =~= self.spec_name());
                "CLD"
            },
            Mnemonic::Cli => {
                proof {
                    reveal_strlit("CLI");
                }
                assert("CLI"@ =~= self.spec_name());
                "CLI"
            },
            Mnemonic::Clv => {
                proof {
                    reveal_strlit("CLV");
                }
                assert("CLV"@ =~= self.spec_name());
                "CLV"
            },
            Mnemonic::Cmp => {
                proof {
                    reveal_strlit("CMP");
                }
                assert("CMP"@ =~= self.spec_name());
                "CMP"
            },
            Mnemonic::Cpx => {
                proof {
                    reveal_strlit("CPX");
                }
                assert("CPX"@ =~= self.spec_name());
                "CPX"
            },
            Mnemonic::Cpy => {
                proof {
                    reveal_strlit("CPY");
                }
                assert("CPY"@ =~= self.spec_name());
                "CPY"
            },
            Mnemonic::Dec => {
                proof {
                    reveal_strlit("DEC");
                }
                assert("DEC"@ =~= self.spec_name());
                "DEC"
            },
            Mnemonic::Dex => {
                proof {
                    reveal_strlit("DEX");
                }
                assert("DEX"@ =~= self.spec_name());
                "DEX"
            },
            Mnemonic::Dey => {
                proof {
                    reveal_strlit("DEY");
                }
                assert("DEY"@ =~= self.spec_name());
                "DEY"
            },
            Mnemonic::Eor => {
                proof {
                    reveal_strlit("EOR");
                }
                assert("EOR"@ =~= self.spec_name());
                "EOR"
            },
            Mnemonic::Inc => {
                proof {
                    reveal_strlit("INC");
                }
                assert("INC"@ =~= self.spec_name());
                "INC"
            },
            Mnemonic::Inx => {
                proof {
                    reveal_strlit("INX");
                }
                assert("INX"@ =~= self.spec_name());
                "INX"
            },
            Mnemonic::Iny => {
                proof {
                    reveal_strlit("INY");
                }
                assert("INY"@ =~= self.spec_name());
                "INY"
            },
            Mnemonic::Jmp => {
                proof {
                    reveal_strlit("JMP");
                }
                assert("JMP"@ =~= self.spec_name());
                "JMP"
            },
            Mnemonic::Jsr => {
                proof {
                    reveal_strlit("JSR");
                }
                assert("JSR"@ =~= self.spec_name());
                "JSR"
            },
            Mnemonic::Lda => {
                proof {
                    reveal_strlit("LDA");
                }
                assert("LDA"@ =~= self.spec_name());
                "LDA"
            },
            Mnemonic::Ldx => {
                proof {
                    reveal_strlit("LDX");
                }
                assert("LDX"@ =~= self.spec_name());
                "LDX"
            },
            Mnemonic::Ldy => {
                proof {
                    reveal_strlit("LDY");
                }
                assert("LDY"@ =~= self.spec_name());
                "LDY"
            },
            Mnemonic::Lsr => {
                proof {
                    reveal_strlit("LSR");
                }
                assert("LSR"@ =~= self.spec_name());
                "LSR"
            },
            Mnemonic::Nop => {
                proof {
                    reveal_strlit("NOP");
                }
                assert("NOP"@ =~= self.spec_name());
                "NOP"
            },
            Mnemonic::Ora => {
                proof {
                    reveal_strlit("ORA");
                }
                assert("ORA"@ =~= self.spec_name());
                "ORA"
            },
            Mnemonic::Pha => {
                proof {
                    reveal_strlit("PHA");
                }
                assert("PHA"@ =~= self.spec_name());
                "PHA"
            },
            Mnemonic::Php => {
                proof {
                    reveal_strlit("PHP");
                }
                assert("PHP"@ =~= self.spec_name());
                "PHP"
            },
            Mnemonic::Pla => {
                proof {
                    reveal_strlit("PLA");
                }
                assert("PLA"@ =~= self.spec_name());
                "PLA"
            },
            Mnemonic::Plp => {
                proof {
                    reveal_strlit("PLP");
                }
                assert("PLP"@ =~= self.spec_name());
                "PLP"
            },
            Mnemonic::Rol => {
                proof {
                    reveal_strlit("ROL");
                }
                assert("ROL"@ =~= self.spec_name());
                "ROL"
            },
            Mnemonic::Ror => {
                proof {
                    reveal_strlit("ROR");
                }
                assert("ROR"@ =~= self.spec_name());
                "ROR"
            },
            Mnemonic::Rti => {
                proof {
                    reveal_strlit("RTI");
                }
                assert("RTI"@ =~= self.spec_name());
                "RTI"
            },
            Mnemonic::Rts => {
                proof {
                    reveal_strlit("RTS");
                }
                assert("RTS"@ =~= self.spec_name());
                "RTS"
            },
            Mnemonic::Sbc => {
                proof {
                    reveal_strlit("SBC");
                }
                assert("SBC"@ =~= self.spec_name());
                "SBC"
            },
            Mnemonic::Sec => {
                proof {
                    reveal_strlit("SEC");
                }
                assert("SEC"@ =~= self.spec_name());
                "SEC"
            },
            Mnemonic::Sed => {
                proof {
                    reveal_strlit("SED");
                }
                assert("SED"@ =~= self.spec_name());
                "SED"
            },
            Mnemonic::Sei => {
                proof {
                    reveal_strlit("SEI");
                }
                assert("SEI"@ =~= self.spec_name());
                "SEI"
            },
            Mnemonic::Sta => {
                proof {
                    reveal_strlit("STA");
                }
                assert("STA"@ =~= self.spec_name());
                "STA"
            },
            Mnemonic::Stx => {
                proof {
                    reveal_strlit("STX");
                }
                assert("STX"@ =~= self.spec_name());
                "STX"
            },
            Mnemonic::Sty => {
                proof {
                    reveal_strlit("STY");
                }
                assert("STY"@ =~= self.spec_name());
                "STY"
            },
            Mnemonic::Tax => {
                proof {
                    reveal_strlit("TAX");
                }
                assert("TAX"@ =~= self.spec_name());
                "TAX"
            },
            Mnemonic::Tay => {
                proof {
                    reveal_strlit("TAY");
                }
                assert("TAY"@ =~= self.spec_name());
                "TAY"
            },
            Mnemonic::Tsx => {
                proof {
                    reveal_strlit("TSX");
                }
                assert("TSX"@ =~= self.spec_name());
                "TSX"
            },
            Mnemonic::Txa => {
                proof {
                    reveal_strlit("TXA");
                }
                assert("TXA"@ =~= self.spec_name());
                "TXA"
            },
            Mnemonic::Txs => {
                proof {
                    reveal_strlit("TXS");
                }
                assert("TXS"@ =~= self.spec_name());
                "TXS"
            },
            Mnemonic::Tya => {
                proof {
                    reveal_strlit("TYA");
                }
                assert("TYA"@ =~= self.spec_name());
                "TYA"
            },
        }
    }

    /// The family that the instruction belongs to.
    pub open spec fn spec_family(self) -> Family {
        match self {
            Mnemonic::Lda
            | Mnemonic::Ldx
            | Mnemonic::Ldy
            | Mnemonic::Sta
            | Mnemonic::Stx
            | Mnemonic::Sty => Family::LoadStore,
            Mnemonic::Adc
            | Mnemonic::Sbc
            | Mnemonic::And
            | Mnemonic::Ora
            | Mnemonic::Eor
            | Mnemonic::Bit => Family::Arithmetic,
            Mnemonic::Asl
            | Mnemonic::Lsr
            | Mnemonic::Rol
            | Mnemonic::Ror => Family::Shift,
            Mnemonic::Cmp
            | Mnemonic::Cpx
            | Mnemonic::Cpy
            | Mnemonic::Inc
            | Mnemonic::Dec
            | Mnemonic::Inx
            | Mnemonic::Iny
            | Mnemonic::Dex
            | Mnemonic::Dey => Family::Count,
            Mnemonic::Bcc
            | Mnemonic::Bcs
            | Mnemonic::Beq
            | Mnemonic::Bmi
            | Mnemonic::Bne
            | Mnemonic::Bpl
            | Mnemonic::Bvc
            | Mnemonic::Bvs => Family::Branch,
            Mnemonic::Tax
            | Mnemonic::Tay
            | Mnemonic::Txa
            | Mnemonic::Tya
            | Mnemonic::Tsx
            | Mnemonic::Txs
            | Mnemonic::Pha
            | Mnemonic::Pla
            | Mnemonic::Php
            | Mnemonic::Plp => Family::Transfer,
            Mnemonic::Jmp
            | Mnemonic::Jsr
            | Mnemonic::Rts
            | Mnemonic::Rti
            | Mnemonic::Brk
            | Mnemonic::Nop => Family::Jump,
            Mnemonic::Clc
            | Mnemonic::Sec
            | Mnemonic::Cli
            | Mnemonic::Sei
            | Mnemonic::Cld
            | Mnemonic::Sed
            | Mnemonic::Clv => Family::Flag,
        }
    }

    /// The family that the instruction belongs to.
    #[verifier::when_used_as_spec(spec_family)]
    pub fn family(self) -> (f: Family)
        ensures
            f == self.spec_family(),
    {
        match self {
            Mnemonic::Lda
            | Mnemonic::Ldx
            | Mnemonic::Ldy
            | Mnemonic::Sta
            | Mnemonic::Stx
            | Mnemonic::Sty => Family::LoadStore,
            Mnemonic::Adc
            | Mnemonic::Sbc
            | Mnemonic::And
            | Mnemonic::Ora
            | Mnemonic::Eor
            | Mnemonic::Bit => Family::Arithmetic,
            Mnemonic::Asl
            | Mnemonic::Lsr
            | Mnemonic::Rol
            | Mnemonic::Ror => Family::Shift,
            Mnemonic::Cmp
            | Mnemonic::Cpx
            | Mnemonic::Cpy
            | Mnemonic::Inc
            | Mnemonic::Dec
            | Mnemonic::Inx
            | Mnemonic::Iny
            | Mnemonic::Dex
            | Mnemonic::Dey => Family::Count,
            Mnemonic::Bcc
            | Mnemonic::Bcs
            | Mnemonic::Beq
            | Mnemonic::Bmi
            | Mnemonic::Bne
            | Mnemonic::Bpl
            | Mnemonic::Bvc
            | Mnemonic::Bvs => Family::Branch,
            Mnemonic::Tax
            | Mnemonic::Tay
            | Mnemonic::Txa
            | Mnemonic::Tya
            | Mnemonic::Tsx
            | Mnemonic::Txs
            | Mnemonic::Pha
            | Mnemonic::Pla
            | Mnemonic::Php
            | Mnemonic::Plp => Family::Transfer,
            Mnemonic::Jmp
            | Mnemonic::Jsr
            | Mnemonic::Rts
            | Mnemonic::Rti
            | Mnemonic::Brk
            | Mnemonic::Nop => Family::Jump,
            Mnemonic::Clc
            | Mnemonic::Sec
            | Mnemonic::Cli
            | Mnemonic::Sei
            | Mnemonic::Cld
            | Mnemonic::Sed
            | Mnemonic::Clv => Family::Flag,
        }
    }

    /// Whether the instruction can be carried out with an addressing mode:
    /// one that names memory where it works on memory, the accumulator mode
    /// for the shifts as well, the relative mode for the branches, and none
    /// where it has no operand.
    pub open spec fn takes(self, mode: AddressingMode) -> bool {
        match self {
            Mnemonic::Asl | Mnemonic::Lsr | Mnemonic::Rol | Mnemonic::Ror => mode.is_memory()
                || mode == AddressingMode::Accumulator,
            Mnemonic::Adc
            | Mnemonic::And
            | Mnemonic::Bit
            | Mnemonic::Cmp
            | Mnemonic::Cpx
            | Mnemonic::Cpy
            | Mnemonic::Dec
            | Mnemonic::Eor
            | Mnemonic::Inc
            | Mnemonic::Lda
            | Mnemonic::Ldx
            | Mnemonic::Ldy
            | Mnemonic::Ora
            | Mnemonic::Sbc
            | Mnemonic::Sta
            | Mnemonic::Stx
            | Mnemonic::Sty => mode.is_memory(),
            Mnemonic::Jmp => mode == AddressingMode::Absolute || mode
                == AddressingMode::Indirect,
            Mnemonic::Jsr => mode == AddressingMode::Absolute,
            Mnemonic::Bcc
            | Mnemonic::Bcs
            | Mnemonic::Beq
            | Mnemonic::Bmi
            | Mnemonic::Bne
            | Mnemonic::Bpl
            | Mnemonic::Bvc
            | Mnemonic::Bvs => mode == AddressingMode::Relative,
            _ => mode == AddressingMode::NoneAddressing,
        }
    }

    /// Whether the instruction sets the program counter itself: the jumps,
    /// the branches, the returns and BRK. After any other instruction the
    /// program counter stands behind the instruction's last byte.
    pub open spec fn spec_sets_pc(self) -> bool {
        match self {
            Mnemonic::Bcc
            | Mnemonic::Bcs
            | Mnemonic::Beq
            | Mnemonic::Bmi
            | Mnemonic::Bne
            | Mnemonic::Bpl
            | Mnemonic::Bvc
            | Mnemonic::Bvs
            | Mnemonic::Brk
            | Mnemonic::Jmp
            | Mnemonic::Jsr
            | Mnemonic::Rti
            | Mnemonic::Rts => true,
            _ => false,
        }
    }

    /// Whether the instruction sets the program counter itself.
    #[verifier::when_used_as_spec(spec_sets_pc)]
    pub fn sets_pc(self) -> (b: bool)
        ensures
            b == self.spec_sets_pc(),
    {
        match self {
            Mnemonic::Bcc
            | Mnemonic::Bcs
            | Mnemonic::Beq
            | Mnemonic::Bmi
            | Mnemonic::Bne
            | Mnemonic::Bpl
            | Mnemonic::Bvc
            | Mnemonic::Bvs
            | Mnemonic::Brk
            | Mnemonic::Jmp
            | Mnemonic::Jsr
            | Mnemonic::Rti
            | Mnemonic::Rts => true,
            _ => false,
        }
    }
}

/// One line of the instruction table.
#[derive(Clone, Copy, Debug, PartialEq, Eq, Structural)]
pub struct OpCode {
    pub mnemonic: Mnemonic,
    pub mode: AddressingMode,
    /// Bytes that the instruction takes, the opcode included.
    pub len: u8,
    /// Cycles that the instruction takes before any penalty.
    pub cycles: u8,
}

impl OpCode {
    /// What holds of every line of the table: the length goes with the
    /// addressing mode, the cycle count lies between 2 and 7, and the mode is
    /// one that the instruction can be carried out with.
    pub open spec fn wf(self) -> bool {
        &&& self.len == self.mode.spec_operand_len() + 1
        &&& 2 <= self.cycles <= 7
        &&& self.mnemonic.takes(self.mode)
    }
}

/// The line of the instruction table for an opcode; none for the opcodes that
/// the 6502 leaves undefined.
pub open spec fn spec_decode(code: u8) -> Option<OpCode> {
    match code {
        0x00 => Some(OpCode { mnemonic: Mnemonic::Brk, mode: AddressingMode::NoneAddressing, len: 1, cycles: 7 }),
        0x01 => Some(OpCode { mnemonic: Mnemonic::Ora, mode: AddressingMode::Indirect_X, len: 2, cycles: 6 }),
        0x05 => Some(OpCode { mnemonic: Mnemonic::Ora, mode: AddressingMode::ZeroPage, len: 2, cycles: 3 }),
        0x06 => Some(OpCode { mnemonic: Mnemonic::Asl, mode: AddressingMode::ZeroPage, len: 2, cycles: 5 }),
        0x08 => Some(OpCode { mnemonic: Mnemonic::Php, mode: AddressingMode::NoneAddressing, len: 1, cycles: 3 }),
        0x09 => Some(OpCode { mnemonic: Mnemonic::Ora, mode: AddressingMode::Immediate, len: 2, cycles: 2 }),
        0x0A => Some(OpCode { mnemonic: Mnemonic::Asl, mode: AddressingMode::Accumulator, len: 1, cycles: 2 }),
        0x0D => Some(OpCode { mnemonic: Mnemonic::Ora, mode: AddressingMode::Absolute, len: 3, cycles: 4 }),
        0x0E => Some(OpCode { mnemonic: Mnemonic::Asl, mode: AddressingMode::Absolute, len: 3, cycles: 6 }),
        0x10 => Some(OpCode { mnemonic: Mnemonic::Bpl, mode: AddressingMode::Relative, len: 2, cycles: 2 }),
        0x11 => Some(OpCode { mnemonic: Mnemonic::Ora, mode: AddressingMode::Indirect_Y, len: 2, cycles: 5 }),
        0x15 => Some(OpCode { mnemonic: Mnemonic::Ora, mode: AddressingMode::ZeroPage_X, len: 2, cycles: 4 }),
        0x16 => Some(OpCode { mnemonic: Mnemonic::Asl, mode: AddressingMode::ZeroPage_X, len: 2, cycles: 6 }),
        0x18 => Some(OpCode { mnemonic: Mnemonic::Clc, mode: AddressingMode::NoneAddressing, len: 1, cycles: 4 }),
        0x19 => Some(OpCode { mnemonic: Mnemonic::Ora, mode: AddressingMode::Absolute_Y, len: 3, cycles: 4 }),
        0x1D => Some(OpCode { mnemonic: Mnemonic::Ora, mode: AddressingMode::Absolute_X, len: 3, cycles: 6 }),
        0x1E => Some(OpCode { mnemonic: Mnemonic::Asl, mode: AddressingMode::Absolute_X, len: 3, cycles: 7 }),
        0x20 => Some(OpCode { mnemonic: Mnemonic::Jsr, mode: AddressingMode::Absolute, len: 3, cycles: 6 }),
        0x21 => Some(OpCode { mnemonic: Mnemonic::And, mode: AddressingMode::Indirect_X, len: 2, cycles: 6 }),
        0x24 => Some(OpCode { mnemonic: Mnemonic::Bit, mode: AddressingMode::ZeroPage, len: 2, cycles: 3 }),
        0x25 => Some(OpCode { mnemonic: Mnemonic::And, mode: AddressingMode::ZeroPage, len: 2, cycles: 3 }),
        0x26 => Some(OpCode { mnemonic: Mnemonic::Rol, mode: AddressingMode::ZeroPage, len: 2, cycles: 5 }),
        0x28 => Some(OpCode { mnemonic: Mnemonic::Plp, mode: AddressingMode::NoneAddressing, len: 1, cycles: 4 }),
        0x29 => Some(OpCode { mnemonic: Mnemonic::And, mode: AddressingMode::Immediate, len: 2, cycles: 2 }),
        0x2A => Some(OpCode { mnemonic: Mnemonic::Rol, mode: AddressingMode::Accumulator, len: 1, cycles: 2 }),
        0x2C => Some(OpCode { mnemonic: Mnemonic::Bit, mode: AddressingMode::Absolute, len: 3, cycles: 4 }),
        0x2D => Some(OpCode { mnemonic: Mnemonic::And, mode: AddressingMode::Absolute, len: 3, cycles: 4 }),
        0x2E => Some(OpCode { mnemonic: Mnemonic::Rol, mode: AddressingMode::Absolute, len: 3, cycles: 6 }),
        0x30 => Some(OpCode { mnemonic: Mnemonic::Bmi, mode: AddressingMode::Relative, len: 2, cycles: 2 }),
        0x31 => Some(OpCode { mnemonic: Mnemonic::And, mode: AddressingMode::Indirect_Y, len: 2, cycles: 5 }),
        0x35 => Some(OpCode { mnemonic: Mnemonic::And, mode: AddressingMode::ZeroPage_X, len: 2, cycles: 4 }),
        0x36 => Some(OpCode { mnemonic: Mnemonic::Rol, mode: AddressingMode::ZeroPage_X, len: 2, cycles: 6 }),
        0x38 => Some(OpCode { mnemonic: Mnemonic::Sec, mode: AddressingMode::NoneAddressing, len: 1, cycles: 4 }),
        0x39 => Some(OpCode { mnemonic: Mnemonic::And, mode: AddressingMode::Absolute_Y, len: 3, cycles: 4 }),
        0x3D => Some(OpCode { mnemonic: Mnemonic::And, mode: AddressingMode::Absolute_X, len: 3, cycles: 6 }),
        0x3E => Some(OpCode { mnemonic: Mnemonic::Rol, mode: AddressingMode::Absolute_X, len: 3, cycles: 7 }),
        0x40 => Some(OpCode { mnemonic: Mnemonic::Rti, mode: AddressingMode::NoneAddressing, len: 1, cycles: 6 }),
        0x41 => Some(OpCode { mnemonic: Mnemonic::Eor, mode: AddressingMode::Indirect_X, len: 2, cycles: 6 }),
        0x45 => Some(OpCode { mnemonic: Mnemonic::Eor, mode: AddressingMode::ZeroPage, len: 2, cycles: 3 }),
        0x46 => Some(OpCode { mnemonic: Mnemonic::Lsr, mode: AddressingMode::ZeroPage, len: 2, cycles: 5 }),
        0x48 => Some(OpCode { mnemonic: Mnemonic::Pha, mode: AddressingMode::NoneAddressing, len: 1, cycles: 3 }),
        0x49 => Some(OpCode { mnemonic: Mnemonic::Eor, mode: AddressingMode::Immediate, len: 2, cycles: 2 }),
        0x4A => Some(OpCode { mnemonic: Mnemonic::Lsr, mode: AddressingMode::Accumulator, len: 1, cycles: 2 }),
        0x4C => Some(OpCode { mnemonic: Mnemonic::Jmp, mode: AddressingMode::Absolute, len: 3, cycles: 3 }),
        0x4D => Some(OpCode { mnemonic: Mnemonic::Eor, mode: AddressingMode::Absolute, len: 3, cycles: 4 }),
        0x4E => Some(OpCode { mnemonic: Mnemonic::Lsr, mode: AddressingMode::Absolute, len: 3, cycles: 6 }),
        0x50 => Some(OpCode { mnemonic: Mnemonic::Bvc, mode: AddressingMode::Relative, len: 2, cycles: 2 }),
        0x51 => Some(OpCode { mnemonic: Mnemonic::Eor, mode: AddressingMode::Indirect_Y, len: 2, cycles: 5 }),
        0x55 => Some(OpCode { mnemonic: Mnemonic::Eor, mode: AddressingMode::ZeroPage_X, len: 2, cycles: 4 }),
        0x56 => Some(OpCode { mnemonic: Mnemonic::Lsr, mode: AddressingMode::ZeroPage_X, len: 2, cycles: 6 }),
        0x58 => Some(OpCode { mnemonic: Mnemonic::Cli, mode: AddressingMode::NoneAddressing, len: 1, cycles: 4 }),
        0x59 => Some(OpCode { mnemonic: Mnemonic::Eor, mode: AddressingMode::Absolute_Y, len: 3, cycles: 4 }),
        0x5D => Some(OpCode { mnemonic: Mnemonic::Eor, mode: AddressingMode::Absolute_X, len: 3, cycles: 6 }),
        0x5E => Some(OpCode { mnemonic: Mnemonic::Lsr, mode: AddressingMode::Absolute_X, len: 3, cycles: 7 }),
        0x60 => Some(OpCode { mnemonic: Mnemonic::Rts, mode: AddressingMode::NoneAddressing, len: 1, cycles: 6 }),
        0x61 => Some(OpCode { mnemonic: Mnemonic::Adc, mode: AddressingMode::Indirect_X, len: 2, cycles: 6 }),
        0x65 => Some(OpCode { mnemonic: Mnemonic::Adc, mode: AddressingMode::ZeroPage, len: 2, cycles: 3 }),
        0x66 => Some(OpCode { mnemonic: Mnemonic::Ror, mode: AddressingMode::ZeroPage, len: 2, cycles: 5 }),
        0x68 => Some(OpCode { mnemonic: Mnemonic::Pla, mode: AddressingMode::NoneAddressing, len: 1, cycles: 4 }),
        0x69 => Some(OpCode { mnemonic: Mnemonic::Adc, mode: AddressingMode::Immediate, len: 2, cycles: 2 }),
        0x6A => Some(OpCode { mnemonic: Mnemonic::Ror, mode: AddressingMode::Accumulator, len: 1, cycles: 2 }),
        0x6C => Some(OpCode { mnemonic: Mnemonic::Jmp, mode: AddressingMode::Indirect, len: 3, cycles: 5 }),
        0x6D => Some(OpCode { mnemonic: Mnemonic::Adc, mode: AddressingMode::Absolute, len: 3, cycles: 4 }),
        0x6E => Some(OpCode { mnemonic: Mnemonic::Ror, mode: AddressingMode::Absolute, len: 3, cycles: 6 }),
        0x70 => Some(OpCode { mnemonic: Mnemonic::Bvs, mode: AddressingMode::Relative, len: 2, cycles: 2 }),
        0x71 => Some(OpCode { mnemonic: Mnemonic::Adc, mode: AddressingMode::Indirect_Y, len: 2, cycles: 5 }),
        0x75 => Some(OpCode { mnemonic: Mnemonic::Adc, mode: AddressingMode::ZeroPage_X, len: 2, cycles: 4 }),
        0x76 => Some(OpCode { mnemonic: Mnemonic::Ror, mode: AddressingMode::ZeroPage_X, len: 2, cycles: 6 }),
        0x78 => Some(OpCode { mnemonic: Mnemonic::Sei, mode: AddressingMode::NoneAddressing, len: 1, cycles: 4 }),
        0x79 => Some(OpCode { mnemonic: Mnemonic::Adc, mode: AddressingMode::Absolute_Y, len: 3, cycles: 4 }),
        0x7D => Some(OpCode { mnemonic: Mnemonic::Adc, mode: AddressingMode::Absolute_X, len: 3, cycles: 6 }),
        0x7E => Some(OpCode { mnemonic: Mnemonic::Ror, mode: AddressingMode::Absolute_X, len: 3, cycles: 7 }),
        0x81 => Some(OpCode { mnemonic: Mnemonic::Sta, mode: AddressingMode::Indirect_X, len: 2, cycles: 6 }),
        0x84 => Some(OpCode { mnemonic: Mnemonic::Sty, mode: AddressingMode::ZeroPage, len: 2, cycles: 3 }),
        0x85 => Some(OpCode { mnemonic: Mnemonic::Sta, mode: AddressingMode::ZeroPage, len: 2, cycles: 3 }),
        0x86 => Some(OpCode { mnemonic: Mnemonic::Stx, mode: AddressingMode::ZeroPage, len: 2, cycles: 5 }),
        0x88 => Some(OpCode { mnemonic: Mnemonic::Dey, mode: AddressingMode::NoneAddressing, len: 1, cycles: 2 }),
        0x8A => Some(OpCode { mnemonic: Mnemonic::Txa, mode: AddressingMode::NoneAddressing, len: 1, cycles: 2 }),
        0x8C => Some(OpCode { mnemonic: Mnemonic::Sty, mode: AddressingMode::Absolute, len: 3, cycles: 4 }),
        0x8D => Some(OpCode { mnemonic: Mnemonic::Sta, mode: AddressingMode::Absolute, len: 3, cycles: 4 }),
        0x8E => Some(OpCode { mnemonic: Mnemonic::Stx, mode: AddressingMode::Absolute, len: 3, cycles: 6 }),
        0x90 => Some(OpCode { mnemonic: Mnemonic::Bcc, mode: AddressingMode::Relative, len: 2, cycles: 2 }),
        0x91 => Some(OpCode { mnemonic: Mnemonic::Sta, mode: AddressingMode::Indirect_Y, len: 2, cycles: 5 }),
        0x94 => Some(OpCode { mnemonic: Mnemonic::Sty, mode: AddressingMode::ZeroPage_X, len: 2, cycles: 4 }),
        0x95 => Some(OpCode { mnemonic: Mnemonic::Sta, mode: AddressingMode::ZeroPage_X, len: 2, cycles: 4 }),
        0x96 => Some(OpCode { mnemonic: Mnemonic::Stx, mode: AddressingMode::ZeroPage_Y, len: 2, cycles: 6 }),
        0x98 => Some(OpCode { mnemonic: Mnemonic::Tya, mode: AddressingMode::NoneAddressing, len: 1, cycles: 3 }),
        0x99 => Some(OpCode { mnemonic: Mnemonic::Sta, mode: AddressingMode::Absolute_Y, len: 3, cycles: 5 }),
        0x9A => Some(OpCode { mnemonic: Mnemonic::Txs, mode: AddressingMode::NoneAddressing, len: 1, cycles: 2 }),
        0x9D => Some(OpCode { mnemonic: Mnemonic::Sta, mode: AddressingMode::Absolute_X, len: 3, cycles: 6 }),
        0xA0 => Some(OpCode { mnemonic: Mnemonic::Ldy, mode: AddressingMode::Immediate, len: 2, cycles: 2 }),
        0xA1 => Some(OpCode { mnemonic: Mnemonic::Lda, mode: AddressingMode::Indirect_X, len: 2, cycles: 6 }),
        0xA2 => Some(OpCode { mnemonic: Mnemonic::Ldx, mode: AddressingMode::Immediate, len: 2, cycles: 2 }),
        0xA4 => Some(OpCode { mnemonic: Mnemonic::Ldy, mode: AddressingMode::ZeroPage, len: 2, cycles: 3 }),
        0xA5 => Some(OpCode { mnemonic: Mnemonic::Lda, mode: AddressingMode::ZeroPage, len: 2, cycles: 3 }),
        0xA6 => Some(OpCode { mnemonic: Mnemonic::Ldx, mode: AddressingMode::ZeroPage, len: 2, cycles: 5 }),
        0xA8 => Some(OpCode { mnemonic: Mnemonic::Tay, mode: AddressingMode::NoneAddressing, len: 1, cycles: 4 }),
        0xA9 => Some(OpCode { mnemonic: Mnemonic::Lda, mode: AddressingMode::Immediate, len: 2, cycles: 2 }),
        0xAA => Some(OpCode { mnemonic: Mnemonic::Tax, mode: AddressingMode::NoneAddressing, len: 1, cycles: 2 }),
        0xAC => Some(OpCode { mnemonic: Mnemonic::Ldy, mode: AddressingMode::Absolute, len: 3, cycles: 4 }),
        0xAD => Some(OpCode { mnemonic: Mnemonic::Lda, mode: AddressingMode::Absolute, len: 3, cycles: 4 }),
        0xAE => Some(OpCode { mnemonic: Mnemonic::Ldx, mode: AddressingMode::Absolute, len: 3, cycles: 6 }),
        0xB0 => Some(OpCode { mnemonic: Mnemonic::Bcs, mode: AddressingMode::Relative, len: 2, cycles: 2 }),
        0xB1 => Some(OpCode { mnemonic: Mnemonic::Lda, mode: AddressingMode::Indirect_Y, len: 2, cycles: 5 }),
        0xB4 => Some(OpCode { mnemonic: Mnemonic::Ldy, mode: AddressingMode::ZeroPage_X, len: 2, cycles: 2 }),
        0xB5 => Some(OpCode { mnemonic: Mnemonic::Lda, mode: AddressingMode::ZeroPage_X, len: 2, cycles: 4 }),
        0xB6 => Some(OpCode { mnemonic: Mnemonic::Ldx, mode: AddressingMode::ZeroPage_Y, len: 2, cycles: 6 }),
        0xB8 => Some(OpCode { mnemonic: Mnemonic::Clv, mode: AddressingMode::NoneAddressing, len: 1, cycles: 4 }),
        0xB9 => Some(OpCode { mnemonic: Mnemonic::Lda, mode: AddressingMode::Absolute_Y, len: 3, cycles: 4 }),
        0xBA => Some(OpCode { mnemonic: Mnemonic::Tsx, mode: AddressingMode::NoneAddressing, len: 1, cycles: 2 }),
        0xBC => Some(OpCode { mnemonic: Mnemonic::Ldy, mode: AddressingMode::Absolute_X, len: 3, cycles: 4 }),
        0xBD => Some(OpCode { mnemonic: Mnemonic::Lda, mode: AddressingMode::Absolute_X, len: 3, cycles: 6 }),
        0xBE => Some(OpCode { mnemonic: Mnemonic::Ldx, mode: AddressingMode::Absolute_Y, len: 3, cycles: 7 }),
        0xC0 => Some(OpCode { mnemonic: Mnemonic::Cpy, mode: AddressingMode::Immediate, len: 2, cycles: 2 }),
        0xC1 => Some(OpCode { mnemonic: Mnemonic::Cmp, mode: AddressingMode::Indirect_X, len: 2, cycles: 6 }),
        0xC4 => Some(OpCode { mnemonic: Mnemonic::Cpy, mode: AddressingMode::ZeroPage, len: 2, cycles: 3 }),
        0xC5 => Some(OpCode { mnemonic: Mnemonic::Cmp, mode: AddressingMode::ZeroPage, len: 2, cycles: 3 }),
        0xC6 => Some(OpCode { mnemonic: Mnemonic::Dec, mode: AddressingMode::ZeroPage, len: 2, cycles: 5 }),
        0xC8 => Some(OpCode { mnemonic: Mnemonic::Iny, mode: AddressingMode::NoneAddressing, len: 1, cycles: 2 }),
        0xC9 => Some(OpCode { mnemonic: Mnemonic::Cmp, mode: AddressingMode::Immediate, len: 2, cycles: 2 }),
        0xCA => Some(OpCode { mnemonic: Mnemonic::Dex, mode: AddressingMode::NoneAddressing, len: 1, cycles: 2 }),
        0xCC => Some(OpCode { mnemonic: Mnemonic::Cpy, mode: AddressingMode::Absolute, len: 3, cycles: 4 }),
        0xCD => Some(OpCode { mnemonic: Mnemonic::Cmp, mode: AddressingMode::Absolute, len: 3, cycles: 4 }),
        0xCE => Some(OpCode { mnemonic: Mnemonic::Dec, mode: AddressingMode::Absolute, len: 3, cycles: 6 }),
        0xD0 => Some(OpCode { mnemonic: Mnemonic::Bne, mode: AddressingMode::Relative, len: 2, cycles: 2 }),
        0xD1 => Some(OpCode { mnemonic: Mnemonic::Cmp, mode: AddressingMode::Indirect_Y, len: 2, cycles: 5 }),
        0xD5 => Some(OpCode { mnemonic: Mnemonic::Cmp, mode: AddressingMode::ZeroPage_X, len: 2, cycles: 4 }),
        0xD6 => Some(OpCode { mnemonic: Mnemonic::Dec, mode: AddressingMode::ZeroPage_X, len: 2, cycles: 6 }),
        0xD8 => Some(OpCode { mnemonic: Mnemonic::Cld, mode: AddressingMode::NoneAddressing, len: 1, cycles: 3 }),
        0xD9 => Some(OpCode { mnemonic: Mnemonic::Cmp, mode: AddressingMode::Absolute_Y, len: 3, cycles: 5 }),
        0xDD => Some(OpCode { mnemonic: Mnemonic::Cmp, mode: AddressingMode::Absolute_X, len: 3, cycles: 6 }),
        0xDE => Some(OpCode { mnemonic: Mnemonic::Dec, mode: AddressingMode::Absolute_X, len: 3, cycles: 7 }),
        0xE0 => Some(OpCode { mnemonic: Mnemonic::Cpx, mode: AddressingMode::Immediate, len: 2, cycles: 2 }),
        0xE1 => Some(OpCode { mnemonic: Mnemonic::Sbc, mode: AddressingMode::Indirect_X, len: 2, cycles: 6 }),
        0xE4 => Some(OpCode { mnemonic: Mnemonic::Cpx, mode: AddressingMode::ZeroPage, len: 2, cycles: 3 }),
        0xE5 => Some(OpCode { mnemonic: Mnemonic::Sbc, mode: AddressingMode::ZeroPage, len: 2, cycles: 3 }),
        0xE6 => Some(OpCode { mnemonic: Mnemonic::Inc, mode: AddressingMode::ZeroPage, len: 2, cycles: 5 }),
        0xE8 => Some(OpCode { mnemonic: Mnemonic::Inx, mode: AddressingMode::NoneAddressing, len: 1, cycles: 4 }),
        0xE9 => Some(OpCode { mnemonic: Mnemonic::Sbc, mode: AddressingMode::Immediate, len: 2, cycles: 2 }),
        0xEA => Some(OpCode { mnemonic: Mnemonic::Nop, mode: AddressingMode::NoneAddressing, len: 1, cycles: 2 }),
        0xEC => Some(OpCode { mnemonic: Mnemonic::Cpx, mode: AddressingMode::Absolute, len: 3, cycles: 4 }),
        0xED => Some(OpCode { mnemonic: Mnemonic::Sbc, mode: AddressingMode::Absolute, len: 3, cycles: 4 }),
        0xEE => Some(OpCode { mnemonic: Mnemonic::Inc, mode: AddressingMode::Absolute, len: 3, cycles: 6 }),
        0xF0 => Some(OpCode { mnemonic: Mnemonic::Beq, mode: AddressingMode::Relative, len: 2, cycles: 2 }),
        0xF1 => Some(OpCode { mnemonic: Mnemonic::Sbc, mode: AddressingMode::Indirect_Y, len: 2, cycles: 5 }),
        0xF5 => Some(OpCode { mnemonic: Mnemonic::Sbc, mode: AddressingMode::ZeroPage_X, len: 2, cycles: 4 }),
        0xF6 => Some(OpCode { mnemonic: Mnemonic::Inc, mode: AddressingMode::ZeroPage_X, len: 2, cycles: 6 }),
        0xF8 => Some(OpCode { mnemonic: Mnemonic::Sed, mode: AddressingMode::NoneAddressing, len: 1, cycles: 4 }),
        0xF9 => Some(OpCode { mnemonic: Mnemonic::Sbc, mode: AddressingMode::Absolute_Y, len: 3, cycles: 4 }),
        0xFD => Some(OpCode { mnemonic: Mnemonic::Sbc, mode: AddressingMode::Absolute_X, len: 3, cycles: 6 }),
        0xFE => Some(OpCode { mnemonic: Mnemonic::Inc, mode: AddressingMode::Absolute_X, len: 3, cycles: 7 }),
        _ => None,
    }
}

/// The line of the instruction table for an opcode.
#[verifier::when_used_as_spec(spec_decode)]
pub fn decode(code: u8) -> (op: Option<OpCode>)
    ensures
        op == spec_decode(code),
        op matches Some(line) ==> line.wf(),
{
    match code {
        0x00 => Some(OpCode { mnemonic: Mnemonic::Brk, mode: AddressingMode::NoneAddressing, len: 1, cycles: 7 }),
        0x01 => Some(OpCode { mnemonic: Mnemonic::Ora, mode: AddressingMode::Indirect_X, len: 2, cycles: 6 }),
        0x05 => Some(OpCode { mnemonic: Mnemonic::Ora, mode: AddressingMode::ZeroPage, len: 2, cycles: 3 }),
        0x06 => Some(OpCode { mnemonic: Mnemonic::Asl, mode: AddressingMode::ZeroPage, len: 2, cycles: 5 }),
        0x08 => Some(OpCode { mnemonic: Mnemonic::Php, mode: AddressingMode::NoneAddressing, len: 1, cycles: 3 }),
        0x09 => Some(OpCode { mnemonic: Mnemonic::Ora, mode: AddressingMode::Immediate, len: 2, cycles: 2 }),
        0x0A => Some(OpCode { mnemonic: Mnemonic::Asl, mode: AddressingMode::Accumulator, len: 1, cycles: 2 }),
        0x0D => Some(OpCode { mnemonic: Mnemonic::Ora, mode: AddressingMode::Absolute, len: 3, cycles: 4 }),
        0x0E => Some(OpCode { mnemonic: Mnemonic::Asl, mode: AddressingMode::Absolute, len: 3, cycles: 6 }),
        0x10 => Some(OpCode { mnemonic: Mnemonic::Bpl, mode: AddressingMode::Relative, len: 2, cycles: 2 }),
        0x11 => Some(OpCode { mnemonic: Mnemonic::Ora, mode: AddressingMode::Indirect_Y, len: 2, cycles: 5 }),
        0x15 => Some(OpCode { mnemonic: Mnemonic::Ora, mode: AddressingMode::ZeroPage_X, len: 2, cycles: 4 }),
        0x16 => Some(OpCode { mnemonic: Mnemonic::Asl, mode: AddressingMode::ZeroPage_X, len: 2, cycles: 6 }),
        0x18 => Some(OpCode { mnemonic: Mnemonic::Clc, mode: AddressingMode::NoneAddressing, len: 1, cycles: 4 }),
        0x19 => Some(OpCode { mnemonic: Mnemonic::Ora, mode: AddressingMode::Absolute_Y, len: 3, cycles: 4 }),
        0x1D => Some(OpCode { mnemonic: Mnemonic::Ora, mode: AddressingMode::Absolute_X, len: 3, cycles: 6 }),
        0x1E => Some(OpCode { mnemonic: Mnemonic::Asl, mode: AddressingMode::Absolute_X, len: 3, cycles: 7 }),
        0x20 => Some(OpCode { mnemonic: Mnemonic::Jsr, mode: AddressingMode::Absolute, len: 3, cycles: 6 }),
        0x21 => Some(OpCode { mnemonic: Mnemonic::And, mode: AddressingMode::Indirect_X, len: 2, cycles: 6 }),
        0x24 => Some(OpCode { mnemonic: Mnemonic::Bit, mode: AddressingMode::ZeroPage, len: 2, cycles: 3 }),
        0x25 => Some(OpCode { mnemonic: Mnemonic::And, mode: AddressingMode::ZeroPage, len: 2, cycles: 3 }),
        0x26 => Some(OpCode { mnemonic: Mnemonic::Rol, mode: AddressingMode::ZeroPage, len: 2, cycles: 5 }),
        0x28 => Some(OpCode { mnemonic: Mnemonic::Plp, mode: AddressingMode::NoneAddressing, len: 1, cycles: 4 }),
        0x29 => Some(OpCode { mnemonic: Mnemonic::And, mode: AddressingMode::Immediate, len: 2, cycles: 2 }),
        0x2A => Some(OpCode { mnemonic: Mnemonic::Rol, mode: AddressingMode::Accumulator, len: 1, cycles: 2 }),
        0x2C => Some(OpCode { mnemonic: Mnemonic::Bit, mode: AddressingMode::Absolute, len: 3, cycles: 4 }),
        0x2D => Some(OpCode { mnemonic: Mnemonic::And, mode: AddressingMode::Absolute, len: 3, cycles: 4 }),
        0x2E => Some(OpCode { mnemonic: Mnemonic::Rol, mode: AddressingMode::Absolute, len: 3, cycles: 6 }),
        0x30 => Some(OpCode { mnemonic: Mnemonic::Bmi, mode: AddressingMode::Relative, len: 2, cycles: 2 }),
        0x31 => Some(OpCode { mnemonic: Mnemonic::And, mode: AddressingMode::Indirect_Y, len: 2, cycles: 5 }),
        0x35 => Some(OpCode { mnemonic: Mnemonic::And, mode: AddressingMode::ZeroPage_X, len: 2, cycles: 4 }),
        0x36 => Some(OpCode { mnemonic: Mnemonic::Rol, mode: AddressingMode::ZeroPage_X, len: 2, cycles: 6 }),
        0x38 => Some(OpCode { mnemonic: Mnemonic::Sec, mode: AddressingMode::NoneAddressing, len: 1, cycles: 4 }),
        0x39 => Some(OpCode { mnemonic: Mnemonic::And, mode: AddressingMode::Absolute_Y, len: 3, cycles: 4 }),
        0x3D => Some(OpCode { mnemonic: Mnemonic::And, mode: AddressingMode::Absolute_X, len: 3, cycles: 6 }),
        0x3E => Some(OpCode { mnemonic: Mnemonic::Rol, mode: AddressingMode::Absolute_X, len: 3, cycles: 7 }),
        0x40 => Some(OpCode { mnemonic: Mnemonic::Rti, mode: AddressingMode::NoneAddressing, len: 1, cycles: 6 }),
        0x41 => Some(OpCode { mnemonic: Mnemonic::Eor, mode: AddressingMode::Indirect_X, len: 2, cycles: 6 }),
        0x45 => Some(OpCode { mnemonic: Mnemonic::Eor, mode: AddressingMode::ZeroPage, len: 2, cycles: 3 }),
        0x46 => Some(OpCode { mnemonic: Mnemonic::Lsr, mode: AddressingMode::ZeroPage, len: 2, cycles: 5 }),
        0x48 => Some(OpCode { mnemonic: Mnemonic::Pha, mode: AddressingMode::NoneAddressing, len: 1, cycles: 3 }),
        0x49 => Some(OpCode { mnemonic: Mnemonic::Eor, mode: AddressingMode::Immediate, len: 2, cycles: 2 }),
        0x4A => Some(OpCode { mnemonic: Mnemonic::Lsr, mode: AddressingMode::Accumulator, len: 1, cycles: 2 }),
        0x4C => Some(OpCode { mnemonic: Mnemonic::Jmp, mode: AddressingMode::Absolute, len: 3, cycles: 3 }),
        0x4D => Some(OpCode { mnemonic: Mnemonic::Eor, mode: AddressingMode::Absolute, len: 3, cycles: 4 }),
        0x4E => Some(OpCode { mnemonic: Mnemonic::Lsr, mode: AddressingMode::Absolute, len: 3, cycles: 6 }),
        0x50 => Some(OpCode { mnemonic: Mnemonic::Bvc, mode: AddressingMode::Relative, len: 2, cycles: 2 }),
        0x51 => Some(OpCode { mnemonic: Mnemonic::Eor, mode: AddressingMode::Indirect_Y, len: 2, cycles: 5 }),
        0x55 => Some(OpCode { mnemonic: Mnemonic::Eor, mode: AddressingMode::ZeroPage_X, len: 2, cycles: 4 }),
        0x56 => Some(OpCode { mnemonic: Mnemonic::Lsr, mode: AddressingMode::ZeroPage_X, len: 2, cycles: 6 }),
        0x58 => Some(OpCode { mnemonic: Mnemonic::Cli, mode: AddressingMode::NoneAddressing, len: 1, cycles: 4 }),
        0x59 => Some(OpCode { mnemonic: Mnemonic::Eor, mode: AddressingMode::Absolute_Y, len: 3, cycles: 4 }),
        0x5D => Some(OpCode { mnemonic: Mnemonic::Eor, mode: AddressingMode::Absolute_X, len: 3, cycles: 6 }),
        0x5E => Some(OpCode { mnemonic: Mnemonic::Lsr, mode: AddressingMode::Absolute_X, len: 3, cycles: 7 }),
        0x60 => Some(OpCode { mnemonic: Mnemonic::Rts, mode: AddressingMode::NoneAddressing, len: 1, cycles: 6 }),
        0x61 => Some(OpCode { mnemonic: Mnemonic::Adc, mode: AddressingMode::Indirect_X, len: 2, cycles: 6 }),
        0x65 => Some(OpCode { mnemonic: Mnemonic::Adc, mode: AddressingMode::ZeroPage, len: 2, cycles: 3 }),
        0x66 => Some(OpCode { mnemonic: Mnemonic::Ror, mode: AddressingMode::ZeroPage, len: 2, cycles: 5 }),
        0x68 => Some(OpCode { mnemonic: Mnemonic::Pla, mode: AddressingMode::NoneAddressing, len: 1, cycles: 4 }),
        0x69 => Some(OpCode { mnemonic: Mnemonic::Adc, mode: AddressingMode::Immediate, len: 2, cycles: 2 }),
        0x6A => Some(OpCode { mnemonic: Mnemonic::Ror, mode: AddressingMode::Accumulator, len: 1, cycles: 2 }),
        0x6C => Some(OpCode { mnemonic: Mnemonic::Jmp, mode: AddressingMode::Indirect, len: 3, cycles: 5 }),
        0x6D => Some(OpCode { mnemonic: Mnemonic::Adc, mode: AddressingMode::Absolute, len: 3, cycles: 4 }),
        0x6E => Some(OpCode { mnemonic: Mnemonic::Ror, mode: AddressingMode::Absolute, len: 3, cycles: 6 }),
        0x70 => Some(OpCode { mnemonic: Mnemonic::Bvs, mode: AddressingMode::Relative, len: 2, cycles: 2 }),
        0x71 => Some(OpCode { mnemonic: Mnemonic::Adc, mode: AddressingMode::Indirect_Y, len: 2, cycles: 5 }),
        0x75 => Some(OpCode { mnemonic: Mnemonic::Adc, mode: AddressingMode::ZeroPage_X, len: 2, cycles: 4 }),
        0x76 => Some(OpCode { mnemonic: Mnemonic::Ror, mode: AddressingMode::ZeroPage_X, len: 2, cycles: 6 }),
        0x78 => Some(OpCode { mnemonic: Mnemonic::Sei, mode: AddressingMode::NoneAddressing, len: 1, cycles: 4 }),
        0x79 => Some(OpCode { mnemonic: Mnemonic::Adc, mode: AddressingMode::Absolute_Y, len: 3, cycles: 4 }),
        0x7D => Some(OpCode { mnemonic: Mnemonic::Adc, mode: AddressingMode::Absolute_X, len: 3, cycles: 6 }),
        0x7E => Some(OpCode { mnemonic: Mnemonic::Ror, mode: AddressingMode::Absolute_X, len: 3, cycles: 7 }),
        0x81 => Some(OpCode { mnemonic: Mnemonic::Sta, mode: AddressingMode::Indirect_X, len: 2, cycles: 6 }),
        0x84 => Some(OpCode { mnemonic: Mnemonic::Sty, mode: AddressingMode::ZeroPage, len: 2, cycles: 3 }),
        0x85 => Some(OpCode { mnemonic: Mnemonic::Sta, mode: AddressingMode::ZeroPage, len: 2, cycles: 3 }),
        0x86 => Some(OpCode { mnemonic: Mnemonic::Stx, mode: AddressingMode::ZeroPage, len: 2, cycles: 5 }),
        0x88 => Some(OpCode { mnemonic: Mnemonic::Dey, mode: AddressingMode::NoneAddressing, len: 1, cycles: 2 }),
        0x8A => Some(OpCode { mnemonic: Mnemonic::Txa, mode: AddressingMode::NoneAddressing, len: 1, cycles: 2 }),
        0x8C => Some(OpCode { mnemonic: Mnemonic::Sty, mode: AddressingMode::Absolute, len: 3, cycles: 4 }),
        0x8D => Some(OpCode { mnemonic: Mnemonic::Sta, mode: AddressingMode::Absolute, len: 3, cycles: 4 }),
        0x8E => Some(OpCode { mnemonic: Mnemonic::Stx, mode: AddressingMode::Absolute, len: 3, cycles: 6 }),
        0x90 => Some(OpCode { mnemonic: Mnemonic::Bcc, mode: AddressingMode::Relative, len: 2, cycles: 2 }),
        0x91 => Some(OpCode { mnemonic: Mnemonic::Sta, mode: AddressingMode::Indirect_Y, len: 2, cycles: 5 }),
        0x94 => Some(OpCode { mnemonic: Mnemonic::Sty, mode: AddressingMode::ZeroPage_X, len: 2, cycles: 4 }),
        0x95 => Some(OpCode { mnemonic: Mnemonic::Sta, mode: AddressingMode::ZeroPage_X, len: 2, cycles: 4 }),
        0x96 => Some(OpCode { mnemonic: Mnemonic::Stx, mode: AddressingMode::ZeroPage_Y, len: 2, cycles: 6 }),
        0x98 => Some(OpCode { mnemonic: Mnemonic::Tya, mode: AddressingMode::NoneAddressing, len: 1, cycles: 3 }),
        0x99 => Some(OpCode { mnemonic: Mnemonic::Sta, mode: AddressingMode::Absolute_Y, len: 3, cycles: 5 }),
        0x9A => Some(OpCode { mnemonic: Mnemonic::Txs, mode: AddressingMode::NoneAddressing, len: 1, cycles: 2 }),
        0x9D => Some(OpCode { mnemonic: Mnemonic::Sta, mode: AddressingMode::Absolute_X, len: 3, cycles: 6 }),
        0xA0 => Some(OpCode { mnemonic: Mnemonic::Ldy, mode: AddressingMode::Immediate, len: 2, cycles: 2 }),
        0xA1 => Some(OpCode { mnemonic: Mnemonic::Lda, mode: AddressingMode::Indirect_X, len: 2, cycles: 6 }),
        0xA2 => Some(OpCode { mnemonic: Mnemonic::Ldx, mode: AddressingMode::Immediate, len: 2, cycles: 2 }),
        0xA4 => Some(OpCode { mnemonic: Mnemonic::Ldy, mode: AddressingMode::ZeroPage, len: 2, cycles: 3 }),
        0xA5 => Some(OpCode { mnemonic: Mnemonic::Lda, mode: AddressingMode::ZeroPage, len: 2, cycles: 3 }),
        0xA6 => Some(OpCode { mnemonic: Mnemonic::Ldx, mode: AddressingMode::ZeroPage, len: 2, cycles: 5 }),
        0xA8 => Some(OpCode { mnemonic: Mnemonic::Tay, mode: AddressingMode::NoneAddressing, len: 1, cycles: 4 }),
        0xA9 => Some(OpCode { mnemonic: Mnemonic::Lda, mode: AddressingMode::Immediate, len: 2, cycles: 2 }),
        0xAA => Some(OpCode { mnemonic: Mnemonic::Tax, mode: AddressingMode::NoneAddressing, len: 1, cycles: 2 }),
        0xAC => Some(OpCode { mnemonic: Mnemonic::Ldy, mode: AddressingMode::Absolute, len: 3, cycles: 4 }),
        0xAD => Some(OpCode { mnemonic: Mnemonic::Lda, mode: AddressingMode::Absolute, len: 3, cycles: 4 }),
        0xAE => Some(OpCode { mnemonic: Mnemonic::Ldx, mode: AddressingMode::Absolute, len: 3, cycles: 6 }),
        0xB0 => Some(OpCode { mnemonic: Mnemonic::Bcs, mode: AddressingMode::Relative, len: 2, cycles: 2 }),
        0xB1 => Some(OpCode { mnemonic: Mnemonic::Lda, mode: AddressingMode::Indirect_Y, len: 2, cycles: 5 }),
        0xB4 => Some(OpCode { mnemonic: Mnemonic::Ldy, mode: AddressingMode::ZeroPage_X, len: 2, cycles: 2 }),
        0xB5 => Some(OpCode { mnemonic: Mnemonic::Lda, mode: AddressingMode::ZeroPage_X, len: 2, cycles: 4 }),
        0xB6 => Some(OpCode { mnemonic: Mnemonic::Ldx, mode: AddressingMode::ZeroPage_Y, len: 2, cycles: 6 }),
        0xB8 => Some(OpCode { mnemonic: Mnemonic::Clv, mode: AddressingMode::NoneAddressing, len: 1, cycles: 4 }),
        0xB9 => Some(OpCode { mnemonic: Mnemonic::Lda, mode: AddressingMode::Absolute_Y, len: 3, cycles: 4 }),
        0xBA => Some(OpCode { mnemonic: Mnemonic::Tsx, mode: AddressingMode::NoneAddressing, len: 1, cycles: 2 }),
        0xBC => Some(OpCode { mnemonic: Mnemonic::Ldy, mode: AddressingMode::Absolute_X, len: 3, cycles: 4 }),
        0xBD => Some(OpCode { mnemonic: Mnemonic::Lda, mode: AddressingMode::Absolute_X, len: 3, cycles: 6 }),
        0xBE => Some(OpCode { mnemonic: Mnemonic::Ldx, mode: AddressingMode::Absolute_Y, len: 3, cycles: 7 }),
        0xC0 => Some(OpCode { mnemonic: Mnemonic::Cpy, mode: AddressingMode::Immediate, len: 2, cycles: 2 }),
        0xC1 => Some(OpCode { mnemonic: Mnemonic::Cmp, mode: AddressingMode::Indirect_X, len: 2, cycles: 6 }),
        0xC4 => Some(OpCode { mnemonic: Mnemonic::Cpy, mode: AddressingMode::ZeroPage, len: 2, cycles: 3 }),
        0xC5 => Some(OpCode { mnemonic: Mnemonic::Cmp, mode: AddressingMode::ZeroPage, len: 2, cycles: 3 }),
        0xC6 => Some(OpCode { mnemonic: Mnemonic::Dec, mode: AddressingMode::ZeroPage, len: 2, cycles: 5 }),
        0xC8 => Some(OpCode { mnemonic: Mnemonic::Iny, mode: AddressingMode::NoneAddressing, len: 1, cycles: 2 }),
        0xC9 => Some(OpCode { mnemonic: Mnemonic::Cmp, mode: AddressingMode::Immediate, len: 2, cycles: 2 }),
        0xCA => Some(OpCode { mnemonic: Mnemonic::Dex, mode: AddressingMode::NoneAddressing, len: 1, cycles: 2 }),
        0xCC => Some(OpCode { mnemonic: Mnemonic::Cpy, mode: AddressingMode::Absolute, len: 3, cycles: 4 }),
        0xCD => Some(OpCode { mnemonic: Mnemonic::Cmp, mode: AddressingMode::Absolute, len: 3, cycles: 4 }),
        0xCE => Some(OpCode { mnemonic: Mnemonic::Dec, mode: AddressingMode::Absolute, len: 3, cycles: 6 }),
        0xD0 => Some(OpCode { mnemonic: Mnemonic::Bne, mode: AddressingMode::Relative, len: 2, cycles: 2 }),
        0xD1 => Some(OpCode { mnemonic: Mnemonic::Cmp, mode: AddressingMode::Indirect_Y, len: 2, cycles: 5 }),
        0xD5 => Some(OpCode { mnemonic: Mnemonic::Cmp, mode: AddressingMode::ZeroPage_X, len: 2, cycles: 4 }),
        0xD6 => Some(OpCode { mnemonic: Mnemonic::Dec, mode: AddressingMode::ZeroPage_X, len: 2, cycles: 6 }),
        0xD8 => Some(OpCode { mnemonic: Mnemonic::Cld, mode: AddressingMode::NoneAddressing, len: 1, cycles: 3 }),
        0xD9 => Some(OpCode { mnemonic: Mnemonic::Cmp, mode: AddressingMode::Absolute_Y, len: 3, cycles: 5 }),
        0xDD => Some(OpCode { mnemonic: Mnemonic::Cmp, mode: AddressingMode::Absolute_X, len: 3, cycles: 6 }),
        0xDE => Some(OpCode { mnemonic: Mnemonic::Dec, mode: AddressingMode::Absolute_X, len: 3, cycles: 7 }),
        0xE0 => Some(OpCode { mnemonic: Mnemonic::Cpx, mode: AddressingMode::Immediate, len: 2, cycles: 2 }),
        0xE1 => Some(OpCode { mnemonic: Mnemonic::Sbc, mode: AddressingMode::Indirect_X, len: 2, cycles: 6 }),
        0xE4 => Some(OpCode { mnemonic: Mnemonic::Cpx, mode: AddressingMode::ZeroPage, len: 2, cycles: 3 }),
        0xE5 => Some(OpCode { mnemonic: Mnemonic::Sbc, mode: AddressingMode::ZeroPage, len: 2, cycles: 3 }),
        0xE6 => Some(OpCode { mnemonic: Mnemonic::Inc, mode: AddressingMode::ZeroPage, len: 2, cycles: 5 }),
        0xE8 => Some(OpCode { mnemonic: Mnemonic::Inx, mode: AddressingMode::NoneAddressing, len: 1, cycles: 4 }),
        0xE9 => Some(OpCode { mnemonic: Mnemonic::Sbc, mode: AddressingMode::Immediate, len: 2, cycles: 2 }),
        0xEA => Some(OpCode { mnemonic: Mnemonic::Nop, mode: AddressingMode::NoneAddressing, len: 1, cycles: 2 }),
        0xEC => Some(OpCode { mnemonic: Mnemonic::Cpx, mode: AddressingMode::Absolute, len: 3, cycles: 4 }),
        0xED => Some(OpCode { mnemonic: Mnemonic::Sbc, mode: AddressingMode::Absolute, len: 3, cycles: 4 }),
        0xEE => Some(OpCode { mnemonic: Mnemonic::Inc, mode: AddressingMode::Absolute, len: 3, cycles: 6 }),
        0xF0 => Some(OpCode { mnemonic: Mnemonic::Beq, mode: AddressingMode::Relative, len: 2, cycles: 2 }),
        0xF1 => Some(OpCode { mnemonic: Mnemonic::Sbc, mode: AddressingMode::Indirect_Y, len: 2, cycles: 5 }),
        0xF5 => Some(OpCode { mnemonic: Mnemonic::Sbc, mode: AddressingMode::ZeroPage_X, len: 2, cycles: 4 }),
        0xF6 => Some(OpCode { mnemonic: Mnemonic::Inc, mode: AddressingMode::ZeroPage_X, len: 2, cycles: 6 }),
        0xF8 => Some(OpCode { mnemonic: Mnemonic::Sed, mode: AddressingMode::NoneAddressing, len: 1, cycles: 4 }),
        0xF9 => Some(OpCode { mnemonic: Mnemonic::Sbc, mode: AddressingMode::Absolute_Y, len: 3, cycles: 4 }),
        0xFD => Some(OpCode { mnemonic: Mnemonic::Sbc, mode: AddressingMode::Absolute_X, len: 3, cycles: 6 }),
        0xFE => Some(OpCode { mnemonic: Mnemonic::Inc, mode: AddressingMode::Absolute_X, len: 3, cycles: 7 }),
        _ => None,
    }
}

/// Every line of the instruction table is well formed.
pub proof fn lemma_decode_wf(code: u8)
    ensures
        spec_decode(code) matches Some(line) ==> line.wf(),
{
    if code / 16 == 0 {
        assert(spec_decode(code) matches Some(line) ==> line.wf());
    }
    if code / 16 == 1 {
        assert(spec_decode(code) matches Some(line) ==> line.wf());
    }
    if code / 16 == 2 {
        assert(spec_decode(code) matches Some(line) ==> line.wf());
    }
    if code / 16 == 3 {
        assert(spec_decode(code) matches Some(line) ==> line.wf());
    }
    if code / 16 == 4 {
        assert(spec_decode(code) matches Some(line) ==> line.wf());
    }
    if code / 16 == 5 {
        assert(spec_decode(code) matches Some(line) ==> line.wf());
    }
    if code / 16 == 6 {
        assert(spec_decode(code) matches Some(line) ==> line.wf());
    }
    if code / 16 == 7 {
        assert(spec_decode(code) matches Some(line) ==> line.wf());
    }
    if code / 16 == 8 {
        assert(spec_decode(code) matches Some(line) ==> line.wf());
    }
    if code / 16 == 9 {
        assert(spec_decode(code) matches Some(line) ==> line.wf());
    }
    if code / 16 == 10 {
        assert(spec_decode(code) matches Some(line) ==> line.wf());
    }
    if code / 16 == 11 {
        assert(spec_decode(code) matches Some(line) ==> line.wf());
    }
    if code / 16 == 12 {
        assert(spec_decode(code) matches Some(line) ==> line.wf());
    }
    if code / 16 == 13 {
        assert(spec_decode(code) matches Some(line) ==> line.wf());
    }
    if code / 16 == 14 {
        assert(spec_decode(code) matches Some(line) ==> line.wf());
    }
    if code / 16 == 15 {
        assert(spec_decode(code) matches Some(line) ==> line.wf());
    }
}

} // verus!
