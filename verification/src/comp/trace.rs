//! The trace: one line per instruction, in the layout of the nestest log.
//!
//! ```text
//! 0064  A2 01     LDX #$01                        A:01 X:02 Y:03 P:24 SP:FD
//! ```
//!
//! The address, the instruction's bytes, its mnemonic and operand, then the
//! registers; all of it in capitals.

use vstd::prelude::*;
use vstd::string::StrSliceExecFns;
use vstd::string::StringExecFns;
use crate::comp::cpu::branch_target;
use crate::comp::cpu::high_byte;
use crate::comp::cpu::low_byte;
use crate::comp::cpu::next_addr;
use crate::comp::cpu::spec_branch_target;
use crate::comp::cpu::spec_high_byte;
use crate::comp::cpu::spec_low_byte;
use crate::comp::cpu::spec_next_addr;
use crate::comp::cpu::spec_word;
use crate::comp::cpu::word;
use crate::comp::cpu::AddressingMode;
use crate::comp::cpu::CPU;
use crate::comp::opcodes::decode;
use crate::comp::opcodes::spec_decode;
use crate::comp::semantics::CpuState;

verus! {

/// The column at which the registers begin.
pub const REGISTER_COLUMN: usize = 47;

/// The width of the column that holds the instruction's bytes.
pub const BYTES_COLUMN_WIDTH: usize = 8;

/// The digit for a number below 16.
pub open spec fn spec_hex_digit(n: u8) -> char {
    match n {
        0 => '0',
        1 => '1',
        2 => '2',
        3 => '3',
        4 => '4',
        5 => '5',
        6 => '6',
        7 => '7',
        8 => '8',
        9 => '9',
        10 => 'A',
        11 => 'B',
        12 => 'C',
        13 => 'D',
        14 => 'E',
        _ => 'F',
    }
}

/// A byte as two hexadecimal digits.
pub open spec fn spec_hex_byte(b: u8) -> Seq<char> {
    seq![spec_hex_digit(b / 16), spec_hex_digit(b % 16)]
}

/// A word as four hexadecimal digits.
pub open spec fn spec_hex_word(w: u16) -> Seq<char> {
    spec_hex_byte(spec_high_byte(w)) + spec_hex_byte(spec_low_byte(w))
}

/// `n` spaces.
pub open spec fn spaces(n: nat) -> Seq<char> {
    Seq::new(n, |i: int| ' ')
}

/// A text filled up with spaces on its right to `width` characters; a text
/// that is longer stays as it is.
pub open spec fn spec_pad_right(text: Seq<char>, width: nat) -> Seq<char> {
    if text.len() < width {
        text + spaces((width - text.len()) as nat)
    } else {
        text
    }
}

/// The operand as the assembler writes it, for an instruction at `pc` whose
/// second and third bytes are `lo` and `hi`. A branch shows the address that
/// it goes to.
pub open spec fn spec_operand_text(mode: AddressingMode, pc: u16, lo: u8, hi: u8) -> Seq<char> {
    match mode {
        AddressingMode::Immediate => seq!['#', '$'] + spec_hex_byte(lo),
        AddressingMode::ZeroPage => seq!['$'] + spec_hex_byte(lo),
        AddressingMode::ZeroPage_X => seq!['$'] + spec_hex_byte(lo) + seq![',', 'X'],
        AddressingMode::ZeroPage_Y => seq!['$'] + spec_hex_byte(lo) + seq![',', 'Y'],
        AddressingMode::Absolute => seq!['$'] + spec_hex_word(spec_word(lo, hi)),
        AddressingMode::Absolute_X => seq!['$'] + spec_hex_word(spec_word(lo, hi)) + seq![',', 'X'],
        AddressingMode::Absolute_Y => seq!['$'] + spec_hex_word(spec_word(lo, hi)) + seq![',', 'Y'],
        AddressingMode::Indirect => seq!['(', '$'] + spec_hex_word(spec_word(lo, hi)) + seq![')'],
        AddressingMode::Indirect_X => seq!['(', '$'] + spec_hex_byte(lo) + seq![',', 'X', ')'],
        AddressingMode::Indirect_Y => seq!['(', '$'] + spec_hex_byte(lo) + seq![')', ',', 'Y'],
        AddressingMode::Accumulator => seq!['A'],
        AddressingMode::Relative => seq!['$'] + spec_hex_word(
            spec_branch_target(pc.wrapping_add(2), lo),
        ),
        AddressingMode::NoneAddressing => Seq::empty(),
    }
}

/// The first `len` of the three bytes, in hexadecimal, a space between one
/// and the next.
pub open spec fn spec_hex_dump(len: u8, code: u8, lo: u8, hi: u8) -> Seq<char> {
    if len <= 1 {
        spec_hex_byte(code)
    } else if len == 2 {
        spec_hex_byte(code) + seq![' '] + spec_hex_byte(lo)
    } else {
        spec_hex_byte(code) + seq![' '] + spec_hex_byte(lo) + seq![' '] + spec_hex_byte(hi)
    }
}

/// The mnemonic and the operand of the instruction with opcode `code`:
/// `???` for an opcode that the 6502 leaves undefined.
pub open spec fn spec_assembly(code: u8, pc: u16, lo: u8, hi: u8) -> Seq<char> {
    match spec_decode(code) {
        None => seq!['?', '?', '?'],
        Some(op) => if op.mode == AddressingMode::NoneAddressing {
            op.mnemonic.spec_name()
        } else {
            op.mnemonic.spec_name() + seq![' '] + spec_operand_text(op.mode, pc, lo, hi)
        },
    }
}

/// The number of bytes that the line shows: the instruction's length, and 1
/// for an undefined opcode.
pub open spec fn spec_shown_len(code: u8) -> u8 {
    match spec_decode(code) {
        None => 1,
        Some(op) => op.len,
    }
}

/// The left part of the line for an instruction at `pc` with the bytes
/// `code`, `lo`, `hi`: the address, two spaces, the bytes in a column of 8,
/// two spaces, the mnemonic and the operand.
pub open spec fn spec_disassembly(pc: u16, code: u8, lo: u8, hi: u8) -> Seq<char> {
    spec_hex_word(pc) + seq![' ', ' '] + spec_pad_right(
        spec_hex_dump(spec_shown_len(code), code, lo, hi),
        BYTES_COLUMN_WIDTH as nat,
    ) + seq![' ', ' '] + spec_assembly(code, pc, lo, hi)
}

/// The registers as the line shows them.
pub open spec fn spec_registers(a: u8, x: u8, y: u8, p: u8, sp: u8) -> Seq<char> {
    seq![' ', 'A', ':'] + spec_hex_byte(a) + seq![' ', 'X', ':'] + spec_hex_byte(x) + seq![
        ' ',
        'Y',
        ':',
    ] + spec_hex_byte(y) + seq![' ', 'P', ':'] + spec_hex_byte(p) + seq![' ', 'S', 'P', ':']
        + spec_hex_byte(sp)
}

/// The line for the instruction that the processor is about to fetch: it is
/// read without any of a read's effects.
pub open spec fn spec_trace(s: CpuState) -> Seq<char> {
    let code = s.bus.read_value(s.pc);
    let lo = s.bus.read_value(spec_next_addr(s.pc));
    let hi = s.bus.read_value(spec_next_addr(spec_next_addr(s.pc)));
    spec_pad_right(spec_disassembly(s.pc, code, lo, hi), REGISTER_COLUMN as nat) + spec_registers(
        s.a,
        s.x,
        s.y,
        s.status.bits,
        s.sp,
    )
}

/// The digit for a number below 16.
pub fn hex_digit(n: u8) -> (s: &'static str)
    requires
        n < 16,
    ensures
        s@ == seq![spec_hex_digit(n)],
{
    match n {
        0 => {
            proof {
                reveal_strlit("0");
            }
            assert("0"@ =~= seq!['0']);
            "0"
        },
        1 => {
            proof {
                reveal_strlit("1");
            }
            assert("1"@ =~= seq!['1']);
            "1"
        },
        2 => {
            proof {
                reveal_strlit("2");
            }
            assert("2"@ =~= seq!['2']);
            "2"
        },
        3 => {
            proof {
                reveal_strlit("3");
            }
            assert("3"@ =~= seq!['3']);
            "3"
        },
        4 => {
            proof {
                reveal_strlit("4");
            }
            assert("4"@ =~= seq!['4']);
            "4"
        },
        5 => {
            proof {
                reveal_strlit("5");
            }
            assert("5"@ =~= seq!['5']);
            "5"
        },
        6 => {
            proof {
                reveal_strlit("6");
            }
            assert("6"@ =~= seq!['6']);
            "6"
        },
        7 => {
            proof {
                reveal_strlit("7");
            }
            assert("7"@ =~= seq!['7']);
            "7"
        },
        8 => {
            proof {
                reveal_strlit("8");
            }
            assert("8"@ =~= seq!['8']);
            "8"
        },
        9 => {
            proof {
                reveal_strlit("9");
            }
            assert("9"@ =~= seq!['9']);
            "9"
        },
        10 => {
            proof {
                reveal_strlit("A");
            }
            assert("A"@ =~= seq!['A']);
            "A"
        },
        11 => {
            proof {
                reveal_strlit("B");
            }
            assert("B"@ =~= seq!['B']);
            "B"
        },
        12 => {
            proof {
                reveal_strlit("C");
            }
            assert("C"@ =~= seq!['C']);
            "C"
        },
        13 => {
            proof {
                reveal_strlit("D");
            }
            assert("D"@ =~= seq!['D']);
            "D"
        },
        14 => {
            proof {
                reveal_strlit("E");
            }
            assert("E"@ =~= seq!['E']);
            "E"
        },
        _ => {
            proof {
                reveal_strlit("F");
            }
            assert("F"@ =~= seq!['F']);
            "F"
        },
    }
}

/// Appends a byte as two hexadecimal digits.
pub fn push_hex_byte(text: &mut String, b: u8)
    ensures
        final(text)@ == old(text)@ + spec_hex_byte(b),
{
    text.append(hex_digit(b / 16));
    text.append(hex_digit(b % 16));
    assert(text@ =~= old(text)@ + spec_hex_byte(b));
}

/// Appends a word as four hexadecimal digits.
pub fn push_hex_word(text: &mut String, w: u16)
    ensures
        final(text)@ == old(text)@ + spec_hex_word(w),
{
    push_hex_byte(text, high_byte(w));
    push_hex_byte(text, low_byte(w));
    assert(text@ =~= old(text)@ + spec_hex_word(w));
}

/// Fills a text up with spaces on its right to `width` characters.
pub fn pad_right(text: &mut String, width: usize)
    ensures
        final(text)@ == spec_pad_right(old(text)@, width as nat),
{
    let len: usize = text.as_str().unicode_len();
    let mut i: usize = len;
    while i < width
        invariant
            len == old(text)@.len(),
            len <= i,
            i == len || i <= width,
            text@ == old(text)@ + spaces((i - len) as nat),
        decreases width - i,
    {
        proof {
            reveal_strlit(" ");
        }
        let ghost before = text@;
        text.append(" ");
        i += 1;
        assert(text@ =~= old(text)@ + spaces((i - len) as nat)) by {
            assert(" "@ =~= seq![' ']);
            assert(text@ == before + " "@);
        }
    }
    assert(text@ =~= spec_pad_right(old(text)@, width as nat));
}

/// Appends the operand of an instruction at `pc` whose second and third
/// bytes are `lo` and `hi`.
pub fn push_operand(text: &mut String, mode: AddressingMode, pc: u16, lo: u8, hi: u8)
    ensures
        final(text)@ == old(text)@ + spec_operand_text(mode, pc, lo, hi),
{
    match mode {
        AddressingMode::Immediate => {
            proof {
                reveal_strlit("#$");
            }
            assert("#$"@ =~= seq!['#', '$']);
            text.append("#$");
            push_hex_byte(text, lo);
        },
        AddressingMode::ZeroPage => {
            proof {
                reveal_strlit("$");
            }
            assert("$"@ =~= seq!['$']);
            text.append("$");
            push_hex_byte(text, lo);
        },
        AddressingMode::ZeroPage_X => {
            proof {
                reveal_strlit("$");
            }
            assert("$"@ =~= seq!['$']);
            text.append("$");
            push_hex_byte(text, lo);
            proof {
                reveal_strlit(",X");
            }
            assert(",X"@ =~= seq![',', 'X']);
            text.append(",X");
        },
        AddressingMode::ZeroPage_Y => {
            proof {
                reveal_strlit("$");
            }
            assert("$"@ =~= seq!['$']);
            text.append("$");
            push_hex_byte(text, lo);
            proof {
                reveal_strlit(",Y");
            }
            assert(",Y"@ =~= seq![',', 'Y']);
            text.append(",Y");
        },
        AddressingMode::Absolute => {
            proof {
                reveal_strlit("$");
            }
            assert("$"@ =~= seq!['$']);
            text.append("$");
            push_hex_word(text, word(lo, hi));
        },
        AddressingMode::Absolute_X => {
            proof {
                reveal_strlit("$");
            }
            assert("$"@ =~= seq!['$']);
            text.append("$");
            push_hex_word(text, word(lo, hi));
            proof {
                reveal_strlit(",X");
            }
            assert(",X"@ =~= seq![',', 'X']);
            text.append(",X");
        },
        AddressingMode::Absolute_Y => {
            proof {
                reveal_strlit("$");
            }
            assert("$"@ =~= seq!['$']);
            text.append("$");
            push_hex_word(text, word(lo, hi));
            proof {
                reveal_strlit(",Y");
            }
            assert(",Y"@ =~= seq![',', 'Y']);
            text.append(",Y");
        },
        AddressingMode::Indirect => {
            proof {
                reveal_strlit("($");
            }
            assert("($"@ =~= seq!['(', '$']);
            text.append("($");
            push_hex_word(text, word(lo, hi));
            proof {
                reveal_strlit(")");
            }
            assert(")"@ =~= seq![')']);
            text.append(")");
        },
        AddressingMode::Indirect_X => {
            proof {
                reveal_strlit("($");
            }
            assert("($"@ =~= seq!['(', '$']);
            text.append("($");
            push_hex_byte(text, lo);
            proof {
                reveal_strlit(",X)");
            }
            assert(",X)"@ =~= seq![',', 'X', ')']);
            text.append(",X)");
        },
        AddressingMode::Indirect_Y => {
            proof {
                reveal_strlit("($");
            }
            assert("($"@ =~= seq!['(', '$']);
            text.append("($");
            push_hex_byte(text, lo);
            proof {
                reveal_strlit("),Y");
            }
            assert("),Y"@ =~= seq![')', ',', 'Y']);
            text.append("),Y");
        },
        AddressingMode::Accumulator => {
            proof {
                reveal_strlit("A");
            }
            assert("A"@ =~= seq!['A']);
            text.append("A");
        },
        AddressingMode::Relative => {
            proof {
                reveal_strlit("$");
            }
            assert("$"@ =~= seq!['$']);
            text.append("$");
            push_hex_word(text, branch_target(pc.wrapping_add(2), lo));
        },
        AddressingMode::NoneAddressing => {},
    }
    assert(text@ =~= old(text)@ + spec_operand_text(mode, pc, lo, hi));
}

/// Appends the first `len` of the three bytes, in hexadecimal.
pub fn push_hex_dump(text: &mut String, len: u8, code: u8, lo: u8, hi: u8)
    ensures
        final(text)@ == old(text)@ + spec_hex_dump(len, code, lo, hi),
{
    push_hex_byte(text, code);
    if len >= 2 {
        proof {
            reveal_strlit(" ");
        }
        assert(" "@ =~= seq![' ']);
        text.append(" ");
        push_hex_byte(text, lo);
    }
    if len >= 3 {
        proof {
            reveal_strlit(" ");
        }
        assert(" "@ =~= seq![' ']);
        text.append(" ");
        push_hex_byte(text, hi);
    }
    assert(text@ =~= old(text)@ + spec_hex_dump(len, code, lo, hi));
}

/// Appends the mnemonic and the operand of the instruction with opcode
/// `code`.
pub fn push_assembly(text: &mut String, code: u8, pc: u16, lo: u8, hi: u8)
    ensures
        final(text)@ == old(text)@ + spec_assembly(code, pc, lo, hi),
{
    match decode(code) {
        None => {
            proof {
                reveal_strlit("???");
            }
            assert("???"@ =~= seq!['?', '?', '?']);
            text.append("???");
        },
        Some(op) => {
            text.append(op.mnemonic.name());
            match op.mode {
                AddressingMode::NoneAddressing => {},
                _ => {
                    proof {
                        reveal_strlit(" ");
                    }
                    assert(" "@ =~= seq![' ']);
                    text.append(" ");
                    push_operand(text, op.mode, pc, lo, hi);
                },
            }
        },
    }
    assert(text@ =~= old(text)@ + spec_assembly(code, pc, lo, hi));
}

/// The left part of the line: address, bytes, mnemonic and operand.
pub fn disassemble(pc: u16, code: u8, lo: u8, hi: u8) -> (text: String)
    ensures
        text@ == spec_disassembly(pc, code, lo, hi),
{
    let len: u8 = match decode(code) {
        None => 1,
        Some(op) => op.len,
    };
    let mut text: String = String::new();
    push_hex_word(&mut text, pc);
    proof {
        reveal_strlit("  ");
    }
    assert("  "@ =~= seq![' ', ' ']);
    text.append("  ");
    let mut dump: String = String::new();
    push_hex_dump(&mut dump, len, code, lo, hi);
    pad_right(&mut dump, BYTES_COLUMN_WIDTH);
    assert(dump@ =~= spec_pad_right(spec_hex_dump(len, code, lo, hi), BYTES_COLUMN_WIDTH as nat));
    text.append(dump.as_str());
    proof {
        reveal_strlit("  ");
    }
    assert("  "@ =~= seq![' ', ' ']);
    text.append("  ");
    push_assembly(&mut text, code, pc, lo, hi);
    assert(text@ =~= spec_disassembly(pc, code, lo, hi));
    text
}

/// Appends the registers.
pub fn push_registers(text: &mut String, a: u8, x: u8, y: u8, p: u8, sp: u8)
    ensures
        final(text)@ == old(text)@ + spec_registers(a, x, y, p, sp),
{
    proof {
        reveal_strlit(" A:");
    }
    assert(" A:"@ =~= seq![' ', 'A', ':']);
    text.append(" A:");
    push_hex_byte(text, a);
    proof {
        reveal_strlit(" X:");
    }
    assert(" X:"@ =~= seq![' ', 'X', ':']);
    text.append(" X:");
    push_hex_byte(text, x);
    proof {
        reveal_strlit(" Y:");
    }
    assert(" Y:"@ =~= seq![' ', 'Y', ':']);
    text.append(" Y:");
    push_hex_byte(text, y);
    proof {
        reveal_strlit(" P:");
    }
    assert(" P:"@ =~= seq![' ', 'P', ':']);
    text.append(" P:");
    push_hex_byte(text, p);
    proof {
        reveal_strlit(" SP:");
    }
    assert(" SP:"@ =~= seq![' ', 'S', 'P', ':']);
    text.append(" SP:");
    push_hex_byte(text, sp);
    assert(text@ =~= old(text)@ + spec_registers(a, x, y, p, sp));
}

/// The trace line for the instruction that the processor is about to fetch.
pub fn trace(cpu: &CPU) -> (line: String)
    requires
        cpu@.wf(),
    ensures
        line@ == spec_trace(cpu@),
{
    let begin: u16 = cpu.pc;
    let code: u8 = cpu.bus.peek(begin);
    let lo: u8 = cpu.bus.peek(next_addr(begin));
    let hi: u8 = cpu.bus.peek(next_addr(next_addr(begin)));
    let mut line: String = disassemble(begin, code, lo, hi);
    pad_right(&mut line, REGISTER_COLUMN);
    push_registers(&mut line, cpu.reg_a, cpu.reg_x, cpu.reg_y, cpu.status.bits(), cpu.stk_ptr);
    line
}

} // verus!
