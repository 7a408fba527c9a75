use rnes::comp::bus::Bus;
use rnes::comp::cpu::AddressingMode;
use rnes::comp::cpu::Mem;
use rnes::comp::cpu::CPU;
use rnes::comp::rom::Rom;
use rnes::comp::trace::disassemble;
use rnes::comp::trace::hex_digit;
use rnes::comp::trace::pad_right;
use rnes::comp::trace::push_hex_byte;
use rnes::comp::trace::push_hex_word;
use rnes::comp::trace::push_operand;
use rnes::comp::trace::trace;

fn test_rom() -> Rom {
    let mut raw = vec![0x4E, 0x45, 0x53, 0x1A, 1, 1, 0, 0];
    raw.extend_from_slice(&[0; 8]);
    raw.extend_from_slice(&[0; 16384]);
    raw.extend_from_slice(&[0; 8192]);
    Rom::new(&raw).unwrap()
}

#[test]
fn test_format_trace() {
    let mut bus = Bus::new(test_rom());
    bus.mem_write(100, 0xa2);
    bus.mem_write(101, 0x01);
    bus.mem_write(102, 0xca);
    bus.mem_write(103, 0x88);
    bus.mem_write(104, 0x00);

    let mut cpu = CPU::new(bus);
    cpu.pc = 0x64;
    cpu.reg_a = 1;
    cpu.reg_x = 2;
    cpu.reg_y = 3;
    let mut result: Vec<String> = vec![];
    cpu.run_with_callback(|cpu| {
        result.push(trace(cpu));
    });
    assert_eq!(
        "0064  A2 01     LDX #$01                        A:01 X:02 Y:03 P:24 SP:FD",
        result[0]
    );
    assert_eq!(
        "0066  CA        DEX                             A:01 X:01 Y:03 P:24 SP:FD",
        result[1]
    );
    assert_eq!(
        "0067  88        DEY                             A:01 X:00 Y:03 P:26 SP:FD",
        result[2]
    );
}

#[test]
fn test_trace_line_of_a_single_state() {
    let mut cpu = CPU::new(Bus::new(test_rom()));
    cpu.mem_write(0x0064, 0xa2);
    cpu.mem_write(0x0065, 0x01);
    cpu.pc = 0x0064;
    cpu.reg_a = 1;
    cpu.reg_x = 2;
    cpu.reg_y = 3;
    let line = trace(&cpu);
    assert_eq!(
        line,
        "0064  A2 01     LDX #$01                        A:01 X:02 Y:03 P:24 SP:FD"
    );
    assert_eq!(line, line.to_ascii_uppercase());
    // Tracing reads nothing away.
    assert_eq!(trace(&cpu), line);
    assert_eq!(cpu.pc, 0x0064);
}

#[test]
fn test_trace_every_operand_form() {
    assert_eq!(disassemble(0x8000, 0xa9, 0x10, 0x00), "8000  A9 10     LDA #$10");
    assert_eq!(disassemble(0x8000, 0xa5, 0x1f, 0x00), "8000  A5 1F     LDA $1F");
    assert_eq!(disassemble(0x8000, 0xb5, 0xab, 0x00), "8000  B5 AB     LDA $AB,X");
    assert_eq!(disassemble(0x8000, 0xb6, 0xab, 0x00), "8000  B6 AB     LDX $AB,Y");
    assert_eq!(disassemble(0x8000, 0xad, 0x34, 0x12), "8000  AD 34 12  LDA $1234");
    assert_eq!(disassemble(0x8000, 0xbd, 0x34, 0x12), "8000  BD 34 12  LDA $1234,X");
    assert_eq!(disassemble(0x8000, 0xb9, 0x34, 0x12), "8000  B9 34 12  LDA $1234,Y");
    assert_eq!(disassemble(0x8000, 0xa1, 0x80, 0x00), "8000  A1 80     LDA ($80,X)");
    assert_eq!(disassemble(0x8000, 0xb1, 0x80, 0x00), "8000  B1 80     LDA ($80),Y");
    assert_eq!(disassemble(0x8000, 0x6c, 0xff, 0x02), "8000  6C FF 02  JMP ($02FF)");
    assert_eq!(disassemble(0x8000, 0x0a, 0xff, 0x02), "8000  0A        ASL A");
    assert_eq!(disassemble(0x8000, 0xea, 0xff, 0x02), "8000  EA        NOP");
    assert_eq!(disassemble(0x8000, 0x00, 0xff, 0x02), "8000  00        BRK");
    assert_eq!(disassemble(0xfffe, 0x20, 0x00, 0x90), "FFFE  20 00 90  JSR $9000");
}

#[test]
fn test_trace_branch_targets() {
    assert_eq!(disassemble(0x8000, 0xd0, 0x05, 0x00), "8000  D0 05     BNE $8007");
    assert_eq!(disassemble(0x8000, 0xf0, 0xfb, 0x00), "8000  F0 FB     BEQ $7FFD");
    assert_eq!(disassemble(0x8000, 0x10, 0x80, 0x00), "8000  10 80     BPL $7F82");
    assert_eq!(disassemble(0x8000, 0x30, 0x7f, 0x00), "8000  30 7F     BMI $8081");
    assert_eq!(disassemble(0xfffe, 0x90, 0x00, 0x00), "FFFE  90 00     BCC $0000");
    assert_eq!(disassemble(0x0000, 0xb0, 0xfe, 0x00), "0000  B0 FE     BCS $0000");
}

#[test]
fn test_trace_unknown_opcode() {
    assert_eq!(disassemble(0x00ff, 0x02, 0x11, 0x22), "00FF  02        ???");
    let mut cpu = CPU::new(Bus::new(test_rom()));
    cpu.mem_write(0x0010, 0xff);
    cpu.pc = 0x0010;
    cpu.reg_a = 0xab;
    cpu.status.bits = 0xe5;
    cpu.stk_ptr = 0x0f;
    assert_eq!(
        trace(&cpu),
        "0010  FF        ???                             A:AB X:00 Y:00 P:E5 SP:0F"
    );
}

#[test]
fn test_trace_wraps_at_the_end_of_memory() {
    let mut cpu = CPU::new(Bus::new(test_rom()));
    cpu.mem_write(0x0000, 0x34);
    cpu.pc = 0xffff;
    // $FFFF holds 0, BRK; a three-byte instruction there would read on at $0000.
    assert_eq!(
        trace(&cpu),
        "FFFF  00        BRK                             A:00 X:00 Y:00 P:24 SP:FD"
    );
}

#[test]
fn test_hex_helpers() {
    let digits: Vec<&str> = (0..16).map(hex_digit).collect();
    assert_eq!(digits.concat(), "0123456789ABCDEF");
    let mut text = String::from("x");
    push_hex_byte(&mut text, 0x0a);
    push_hex_byte(&mut text, 0xf0);
    push_hex_word(&mut text, 0x0b1c);
    assert_eq!(text, "x0AF00B1C");
    let mut operand = String::new();
    push_operand(&mut operand, AddressingMode::NoneAddressing, 0, 1, 2);
    assert_eq!(operand, "");
    push_operand(&mut operand, AddressingMode::Indirect_X, 0, 0xfe, 2);
    assert_eq!(operand, "($FE,X)");
}

#[test]
fn test_pad_right() {
    let mut text = String::from("ab");
    pad_right(&mut text, 5);
    assert_eq!(text, "ab   ");
    pad_right(&mut text, 5);
    assert_eq!(text, "ab   ");
    pad_right(&mut text, 3);
    assert_eq!(text, "ab   ");
    let mut empty = String::new();
    pad_right(&mut empty, 0);
    assert_eq!(empty, "");
}
