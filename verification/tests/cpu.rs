use rnes::comp::bus::Bus;
use rnes::comp::cpu::AddressingMode;
use rnes::comp::cpu::Halt;
use rnes::comp::cpu::InterruptType;
use rnes::comp::cpu::Mem;
use rnes::comp::cpu::CPU;
use rnes::comp::flags::CpuFlags;
use rnes::comp::opcodes::decode;
use rnes::comp::opcodes::Mnemonic;
use rnes::comp::rom::Rom;

const C: u8 = 0b0000_0001;
const Z: u8 = 0b0000_0010;
const I: u8 = 0b0000_0100;
const V: u8 = 0b0100_0000;
const N: u8 = 0b1000_0000;

/// A cartridge whose program ROM is all zero, so that a reset goes to
/// address 0, where `load` puts a program.
fn blank_machine() -> CPU {
    machine_with_rom(&[], 0x0000)
}

/// A cartridge with `program` at `$8000` and the given reset vector; the
/// other two vectors point at `$9000` (NMI) and `$A000` (BRK).
fn machine_with_rom(program: &[u8], reset: u16) -> CPU {
    let mut raw = vec![0x4E, 0x45, 0x53, 0x1A, 2, 1, 0, 0];
    raw.extend_from_slice(&[0; 8]);
    let mut prg = vec![0u8; 32768];
    prg[..program.len()].copy_from_slice(program);
    if !program.is_empty() {
        prg[0x7FFA] = 0x00;
        prg[0x7FFB] = 0x90;
        prg[0x7FFE] = 0x00;
        prg[0x7FFF] = 0xA0;
    }
    prg[0x7FFC] = (reset & 0xFF) as u8;
    prg[0x7FFD] = (reset >> 8) as u8;
    raw.extend_from_slice(&prg);
    raw.extend_from_slice(&[0; 8192]);
    CPU::new(Bus::new(Rom::new(&raw).unwrap()))
}

fn run(program: Vec<u8>) -> CPU {
    let mut cpu = blank_machine();
    assert_eq!(cpu.load_and_run(program), Halt::Break);
    cpu
}

fn flag(cpu: &CPU, mask: u8) -> bool {
    cpu.status.bits() & mask != 0
}

#[test]
fn test_0xa9_lda_immediate_load_data() {
    let cpu = run(vec![0xa9, 0x05, 0x00]);
    assert_eq!(cpu.reg_a, 0x05);
    assert!(cpu.status.bits() & 0b0000_0010 == 0b00);
    assert!(cpu.status.bits() & 0b1000_0000 == 0);
}

#[test]
fn test_0xa9_lda_zero_flag() {
    let cpu = run(vec![0xa9, 0x00, 0x00]);
    assert!(cpu.status.bits() & 0b0000_0010 == 0b10);
}

#[test]
fn test_lda_negative_flag() {
    let cpu = run(vec![0xa9, 0x80, 0x00]);
    assert!(flag(&cpu, N));
    assert!(!flag(&cpu, Z));
}

#[test]
fn test_lda_from_memory() {
    let mut cpu = blank_machine();
    cpu.mem_write(0x10, 0x55);
    cpu.load_and_run(vec![0xa5, 0x10, 0x00]);
    assert_eq!(cpu.reg_a, 0x55);
}

#[test]
fn test_0xaa_tax_move_a_to_x() {
    let mut cpu = blank_machine();
    cpu.load(vec![0xaa, 0x00]);
    cpu.reset();
    cpu.reg_a = 10;
    assert_eq!(cpu.run(), Halt::Break);
    assert_eq!(cpu.reg_x, 10);
}

#[test]
fn test_5_ops_working_together() {
    let cpu = run(vec![0xa9, 0xc0, 0xaa, 0xe8, 0x00]);
    assert_eq!(cpu.reg_x, 0xc1);
}

#[test]
fn test_inx_overflow() {
    let mut cpu = blank_machine();
    cpu.load(vec![0xe8, 0xe8, 0x00]);
    cpu.reset();
    cpu.reg_x = 0xff;
    assert_eq!(cpu.run(), Halt::Break);
    assert_eq!(cpu.reg_x, 1);
}

#[test]
fn test_sta_absolute_x() {
    let mut cpu = run(vec![0xa2, 0x0f, 0xa9, 0xdd, 0x9d, 0x00, 0x02, 0x00]);
    assert_eq!(cpu.mem_read(0x020f), 0xdd);
}

#[test]
fn test_lda_indirect_y() {
    let mut cpu = blank_machine();
    cpu.mem_write_u16(0xf0, 0x0300);
    cpu.mem_write(0x0305, 0xAB);
    cpu.load_and_run(vec![0xa0, 0x05, 0xb1, 0xf0, 0x00]);
    assert_eq!(cpu.reg_a, 0xab);
}

#[test]
fn test_lda_indirect_x_wraps_in_the_zero_page() {
    let mut cpu = blank_machine();
    cpu.mem_write(0x00FF, 0x34);
    cpu.load(vec![0xa2, 0x0f, 0xa1, 0xf0, 0x00]);
    // The pointer is read at $FF and $00; $00 holds the first opcode, $A2.
    cpu.reset();
    cpu.run();
    assert_eq!(cpu.reg_x, 0x0f);
    // $A234 lies in ROM, which is all zero.
    assert_eq!(cpu.reg_a, 0x00);
    assert!(flag(&cpu, Z));
}

#[test]
fn test_bne_branch_taken() {
    let cpu = run(vec![0xa2, 0x01, 0xd0, 0x01, 0xe8, 0x00]);
    assert_eq!(cpu.reg_x, 1, "X should be 1, as INX was skipped");
}

#[test]
fn test_bne_branch_not_taken() {
    let cpu = run(vec![0xa2, 0x01, 0xca, 0xd0, 0x01, 0xe8, 0x00]);
    assert_eq!(cpu.reg_x, 1, "X should be 1, as INX was executed");
}

#[test]
fn test_compare_and_branch_loop() {
    let cpu = run(vec![0xa2, 0x03, 0xca, 0xe0, 0x00, 0xd0, 0xfb, 0x00]);
    assert_eq!(cpu.reg_x, 0, "Loop should terminate when X is 0");
}

#[test]
fn test_compare_flags() {
    let cpu = run(vec![0xa9, 0x10, 0xc9, 0x20, 0x00]);
    assert!(!flag(&cpu, C), "A < M, Carry should be clear");
    assert!(!flag(&cpu, Z), "A != M, Zero should be clear");
    assert!(flag(&cpu, N), "Result is negative, Negative flag should be set");
    let cpu = run(vec![0xa9, 0x20, 0xc9, 0x20, 0x00]);
    assert!(flag(&cpu, C));
    assert!(flag(&cpu, Z));
    assert!(!flag(&cpu, N));
    let cpu = run(vec![0xa0, 0x21, 0xc0, 0x20, 0x00]);
    assert!(flag(&cpu, C));
    assert!(!flag(&cpu, Z));
}

#[test]
fn test_asl_accumulator() {
    let cpu = run(vec![0xa9, 0xc1, 0x0a, 0x00]);
    assert_eq!(cpu.reg_a, 0x82);
    assert!(flag(&cpu, C), "Carry flag should be set");
    assert!(flag(&cpu, N), "Negative flag should be set");
}

#[test]
fn test_lsr_memory_and_flags() {
    let mut cpu = blank_machine();
    cpu.mem_write(0x20, 0x01);
    cpu.load_and_run(vec![0x46, 0x20, 0x00]);
    assert_eq!(cpu.mem_read(0x20), 0x00);
    assert!(flag(&cpu, C), "Carry flag should be set");
    assert!(flag(&cpu, Z), "Zero flag should be set");
}

#[test]
fn test_rol_accumulator_with_carry() {
    let cpu = run(vec![0x38, 0xa9, 0x7f, 0x2a, 0x00]);
    assert_eq!(cpu.reg_a, 0xff, "Accumulator should be 255");
    assert!(!flag(&cpu, C), "Carry flag should be cleared");
    assert!(flag(&cpu, N), "Negative flag should be set");
}

#[test]
fn test_ror_memory() {
    let mut cpu = blank_machine();
    cpu.mem_write(0x33, 0x02);
    cpu.load_and_run(vec![0x38, 0x66, 0x33, 0x00]);
    assert_eq!(cpu.mem_read(0x33), 0x81);
    assert!(!flag(&cpu, C), "Carry flag should be cleared");
    assert!(flag(&cpu, N));
}

#[test]
fn test_ror_accumulator_shifts_into_carry() {
    let cpu = run(vec![0x18, 0xa9, 0x03, 0x6a, 0x00]);
    assert_eq!(cpu.reg_a, 0x01);
    assert!(flag(&cpu, C));
}

#[test]
fn test_and_immediate() {
    let cpu = run(vec![0xa9, 0xcf, 0x29, 0x3a, 0x00]);
    assert_eq!(cpu.reg_a, 0x0a);
    assert!(!flag(&cpu, Z), "Zero flag should not be set");
}

#[test]
fn test_ora_immediate() {
    let cpu = run(vec![0xa9, 0x41, 0x09, 0x82, 0x00]);
    assert_eq!(cpu.reg_a, 0xc3);
    assert!(flag(&cpu, N));
}

#[test]
fn test_eor_and_zero_flag() {
    let cpu = run(vec![0xa9, 0x55, 0x49, 0x55, 0x00]);
    assert_eq!(cpu.reg_a, 0x00);
    assert!(flag(&cpu, Z), "Zero flag should be set");
}

#[test]
fn test_bit_instruction() {
    let mut cpu = blank_machine();
    cpu.mem_write(0x20, 0b1100_0000);
    cpu.load_and_run(vec![0xa9, 0x01, 0x24, 0x20, 0x00]);
    assert!(flag(&cpu, Z), "Zero flag should be set");
    assert!(flag(&cpu, N), "Negative flag should be set from mem bit 7");
    assert!(flag(&cpu, V), "Overflow flag should be set from mem bit 6");
}

#[test]
fn test_adc_simple_add_with_overflow() {
    let cpu = run(vec![0xa9, 0x7f, 0x69, 0x01, 0x00]);
    assert_eq!(cpu.reg_a, 0x80);
    assert!(flag(&cpu, V), "Overflow flag should be set");
    assert!(flag(&cpu, N), "Negative flag should be set");
    assert!(!flag(&cpu, C));
}

#[test]
fn test_adc_carry_out_and_in() {
    // SEC; LDA #$FF; ADC #$01 gives $01 with carry.
    let cpu = run(vec![0x38, 0xa9, 0xff, 0x69, 0x01, 0x00]);
    assert_eq!(cpu.reg_a, 0x01);
    assert!(flag(&cpu, C));
    assert!(!flag(&cpu, V));
    assert!(!flag(&cpu, Z));
    let cpu = run(vec![0x18, 0xa9, 0xff, 0x69, 0x01, 0x00]);
    assert_eq!(cpu.reg_a, 0x00);
    assert!(flag(&cpu, C));
    assert!(flag(&cpu, Z));
}

#[test]
fn test_adc_overflow_for_all_operands() {
    for a in 0..=255u8 {
        for m in 0..=255u8 {
            for carry in 0..=1u8 {
                let mut cpu = blank_machine();
                cpu.reg_a = a;
                cpu.status.set(CpuFlags::CARRY, carry == 1);
                cpu.add_to_reg_a(m);
                let sum = a as u16 + m as u16 + carry as u16;
                let res = sum as u8;
                assert_eq!(cpu.reg_a, res);
                assert_eq!(flag(&cpu, C), sum > 0xFF);
                let signed = a as i8 as i16 + m as i8 as i16 + carry as i16;
                assert_eq!(flag(&cpu, V), !(-128..=127).contains(&signed));
                assert_eq!(
                    flag(&cpu, V),
                    (a & 0x80 == m & 0x80) && (res & 0x80 != a & 0x80)
                );
                assert_eq!(flag(&cpu, Z), res == 0);
                assert_eq!(flag(&cpu, N), res & 0x80 != 0);
            }
        }
    }
}

#[test]
fn test_sbc_overflow_for_all_operands() {
    for a in (0..=255u8).step_by(3) {
        for m in 0..=255u8 {
            for carry in 0..=1u8 {
                let mut cpu = blank_machine();
                cpu.mem_write(0x0000, m);
                cpu.pc = 0x0000;
                cpu.reg_a = a;
                cpu.status.set(CpuFlags::CARRY, carry == 1);
                cpu.sbc(&AddressingMode::Immediate);
                let signed = a as i8 as i16 - m as i8 as i16 - (1 - carry as i16);
                assert_eq!(cpu.reg_a, signed as u8);
                assert_eq!(flag(&cpu, V), !(-128..=127).contains(&signed));
                assert_eq!(flag(&cpu, C), a as i16 - m as i16 - (1 - carry as i16) >= 0);
            }
        }
    }
}

#[test]
fn test_sbc_with_borrow() {
    let cpu = run(vec![0x18, 0xa9, 0x05, 0xe9, 0x03, 0x00]);
    assert_eq!(cpu.reg_a, 1);
}

#[test]
fn test_sbc_no_borrow() {
    let cpu = run(vec![0x38, 0xa9, 0x05, 0xe9, 0x03, 0x00]);
    assert_eq!(cpu.reg_a, 2);
}

#[test]
fn test_jsr_and_rts() {
    let program = vec![
        0xa9, 0x05, // LDA #$05
        0x20, 0x0a, 0x80, // JSR $800A
        0xa9, 0x0f, // LDA #$0F
        0x00, // BRK
        0x00, 0x00, // padding
        0xa9, 0xaa, // $800A: LDA #$AA
        0x8d, 0x00, 0x02, // STA $0200
        0x60, // RTS
    ];
    let mut cpu = machine_with_rom(&program, 0x8000);
    cpu.reset();
    assert_eq!(cpu.pc, 0x8000);
    assert_eq!(cpu.run(), Halt::Break);
    assert_eq!(cpu.mem_read(0x0200), 0xaa, "Subroutine should store 0xAA in memory.");
    assert_eq!(cpu.reg_a, 0x0f, "Accumulator should be 0x0F after returning.");
    assert_eq!(cpu.stk_ptr, 0xfd, "Stack pointer should be reset after JSR/RTS cycle.");
    assert_eq!(cpu.pc, 0x8008);
    // JSR left the address of its own last byte on the stack.
    assert_eq!(cpu.mem_read(0x01fd), 0x80);
    assert_eq!(cpu.mem_read(0x01fc), 0x04);
}

#[test]
fn test_stack_round_trip() {
    for b in [0x00u8, 0x01, 0x7f, 0x80, 0xff] {
        for sp in [0x00u8, 0x01, 0x80, 0xfd, 0xff] {
            let mut cpu = blank_machine();
            cpu.stk_ptr = sp;
            cpu.stk_push(b);
            assert_eq!(cpu.stk_ptr, sp.wrapping_sub(1));
            assert_eq!(cpu.mem_read(0x0100 + sp as u16), b);
            assert_eq!(cpu.stk_pop(), b);
            assert_eq!(cpu.stk_ptr, sp);
        }
    }
    let mut cpu = blank_machine();
    cpu.stk_ptr = 0x00;
    cpu.stk_push_u16(0xBEEF);
    assert_eq!(cpu.stk_ptr, 0xfe);
    assert_eq!(cpu.mem_read(0x0100), 0xBE);
    assert_eq!(cpu.mem_read(0x01ff), 0xEF);
    assert_eq!(cpu.stk_pop_u16(), 0xBEEF);
    assert_eq!(cpu.stk_ptr, 0x00);
}

#[test]
fn test_pha_pla_php_plp() {
    // LDA #$80; PHA; LDA #$00; PLA
    let cpu = run(vec![0xa9, 0x80, 0x48, 0xa9, 0x00, 0x68, 0x00]);
    assert_eq!(cpu.reg_a, 0x80);
    assert!(flag(&cpu, N));
    assert_eq!(cpu.stk_ptr, 0xfd);
    // SEC; PHP; CLC; PLA: the pushed status has B and the unused bit set.
    let cpu = run(vec![0x38, 0x08, 0x18, 0x68, 0x00]);
    assert_eq!(cpu.reg_a, 0x24 | 0x10 | 0x01);
    // LDA #$FF; PHA; PLP: B stays clear, the unused bit stays set.
    let cpu = run(vec![0xa9, 0xff, 0x48, 0x28, 0x00]);
    assert_eq!(cpu.status.bits(), 0xef);
    let cpu = run(vec![0xa9, 0x00, 0x48, 0x28, 0x00]);
    assert_eq!(cpu.status.bits(), 0x20);
}

#[test]
fn test_transfers() {
    // LDX #$00; TXS; LDX #$55; TSX sets Z from the stack pointer.
    let cpu = run(vec![0xa2, 0x00, 0x9a, 0xa2, 0x55, 0xba, 0x00]);
    assert_eq!(cpu.reg_x, 0x00);
    assert_eq!(cpu.stk_ptr, 0x00);
    assert!(flag(&cpu, Z));
    // LDA #$80; LDX #$01; TXS leaves the flags of the load.
    let cpu = run(vec![0xa2, 0x80, 0x9a, 0x00]);
    assert_eq!(cpu.stk_ptr, 0x80);
    assert!(flag(&cpu, N));
    let cpu = run(vec![0xa9, 0x33, 0xa8, 0xa9, 0x00, 0x98, 0xaa, 0x8a, 0x00]);
    assert_eq!((cpu.reg_a, cpu.reg_x, cpu.reg_y), (0x33, 0x33, 0x33));
}

#[test]
fn test_inc_dec_wrap() {
    let mut cpu = blank_machine();
    cpu.mem_write(0x40, 0xff);
    cpu.mem_write(0x41, 0x00);
    cpu.load_and_run(vec![0xe6, 0x40, 0xc6, 0x41, 0x88, 0x00]);
    assert_eq!(cpu.mem_read(0x40), 0x00);
    assert_eq!(cpu.mem_read(0x41), 0xff);
    assert_eq!(cpu.reg_y, 0xff);
    assert!(flag(&cpu, N));
}

#[test]
fn test_flag_instructions() {
    let cpu = run(vec![0x38, 0xf8, 0x78, 0x00]);
    assert_eq!(cpu.status.bits(), 0x24 | 0x01 | 0x08);
    let cpu = run(vec![0x38, 0xf8, 0x18, 0xd8, 0x58, 0x00]);
    assert_eq!(cpu.status.bits(), 0x20);
    // LDA #$7F; ADC #$01 sets V; CLV clears it.
    let cpu = run(vec![0xa9, 0x7f, 0x69, 0x01, 0xb8, 0x00]);
    assert!(!flag(&cpu, V));
    assert!(flag(&cpu, N));
    assert!(flag(&cpu, I));
}

#[test]
fn test_jmp_absolute() {
    let cpu = run(vec![0x4c, 0x05, 0x00, 0xe8, 0xe8, 0xc8, 0x00]);
    assert_eq!(cpu.reg_x, 0);
    assert_eq!(cpu.reg_y, 1);
}

#[test]
fn test_jmp_indirect_wraps_in_the_page() {
    let mut cpu = blank_machine();
    cpu.mem_write(0x02ff, 0x10);
    cpu.mem_write(0x0300, 0x07);
    cpu.mem_write(0x0200, 0x00);
    // $0010: INX; BRK
    cpu.mem_write(0x0010, 0xe8);
    cpu.mem_write(0x0011, 0x00);
    assert_eq!(cpu.load_and_run(vec![0x6c, 0xff, 0x02]), Halt::Break);
    assert_eq!(cpu.reg_x, 1);
    assert_eq!(cpu.pc, 0x0012);

    let mut cpu = blank_machine();
    cpu.mem_write(0x0280, 0x10);
    cpu.mem_write(0x0281, 0x00);
    cpu.mem_write(0x0010, 0xc8);
    cpu.mem_write(0x0011, 0x00);
    assert_eq!(cpu.load_and_run(vec![0x6c, 0x80, 0x02]), Halt::Break);
    assert_eq!(cpu.reg_y, 1);
}

#[test]
fn test_branch_backwards() {
    // LDX #$05; DEX; BNE -3; BRK
    let cpu = run(vec![0xa2, 0x05, 0xca, 0xd0, 0xfd, 0x00]);
    assert_eq!(cpu.reg_x, 0);
    assert_eq!(cpu.pc, 0x0006);
}

#[test]
fn test_rti_restores_status_and_pc() {
    let mut cpu = blank_machine();
    cpu.load(vec![0x40]);
    cpu.mem_write(0x0010, 0x00);
    cpu.reset();
    cpu.stk_push_u16(0x0010);
    cpu.stk_push(0xff);
    assert_eq!(cpu.run(), Halt::Break);
    assert_eq!(cpu.status.bits(), 0xef);
    assert_eq!(cpu.pc, 0x0011);
    assert_eq!(cpu.stk_ptr, 0xfd);
}

#[test]
fn test_reset_state() {
    let mut cpu = machine_with_rom(&[0xea], 0x8123);
    cpu.reg_a = 1;
    cpu.reg_x = 2;
    cpu.reg_y = 3;
    cpu.stk_ptr = 0x10;
    cpu.status = CpuFlags::from_bits_truncate(0xff);
    cpu.reset();
    assert_eq!(cpu.reg_a, 0);
    assert_eq!(cpu.reg_x, 0);
    assert_eq!(cpu.reg_y, 3);
    assert_eq!(cpu.status.bits(), 0x24);
    assert_eq!(cpu.stk_ptr, 0xfd);
    assert_eq!(cpu.pc, 0x8123);
    assert_eq!(cpu.cycles, 0);
}

#[test]
fn test_new_state() {
    let cpu = blank_machine();
    assert_eq!((cpu.reg_a, cpu.reg_x, cpu.reg_y), (0, 0, 0));
    assert_eq!(cpu.status.bits(), 0x24);
    assert_eq!(cpu.stk_ptr, 0xfd);
    assert_eq!(cpu.pc, 0);
    assert_eq!(cpu.cycles, 0);
}

#[test]
fn test_load_writes_from_address_zero() {
    let mut cpu = blank_machine();
    cpu.load(vec![1, 2, 3]);
    assert_eq!(cpu.mem_read(0), 1);
    assert_eq!(cpu.mem_read(1), 2);
    assert_eq!(cpu.mem_read(2), 3);
    assert_eq!(cpu.mem_read(3), 0);
    // The reset vector lies in ROM and keeps what the cartridge says.
    let mut cpu = machine_with_rom(&[0xea], 0x8000);
    cpu.load(vec![0xe8, 0x00]);
    assert_eq!(cpu.mem_read_u16(0xfffc), 0x8000);
}

#[test]
fn test_unknown_opcode_stops_the_run() {
    let mut cpu = blank_machine();
    assert_eq!(cpu.load_and_run(vec![0xe8, 0x02, 0xe8]), Halt::UnknownOpcode(0x02));
    assert_eq!(cpu.reg_x, 1);
    assert_eq!(cpu.pc, 2);
    assert!(decode(0x02).is_none());
    // The next step goes on behind the undefined opcode.
    assert_eq!(cpu.step(), None);
    assert_eq!(cpu.reg_x, 2);
}

#[test]
fn test_clock_exhausted_stops_the_run() {
    let mut cpu = blank_machine();
    cpu.load(vec![0xe8, 0x00]);
    cpu.reset();
    cpu.bus.cycles = usize::MAX - 522;
    cpu.bus.ppu.frame = 0;
    assert_eq!(cpu.step(), Some(Halt::ClockExhausted));
    assert_eq!(cpu.reg_x, 0);
    assert_eq!(cpu.pc, 0);
    assert_eq!(cpu.run(), Halt::ClockExhausted);
}

#[test]
fn test_cycles_of_a_straight_program() {
    // LDA #$01 (2), STA $0200 (4), INX (table: 4), NOP (2), then BRK.
    let cpu = run(vec![0xa9, 0x01, 0x8d, 0x00, 0x02, 0xe8, 0xea, 0x00]);
    assert_eq!(cpu.cycles, 2 + 4 + decode(0xe8).unwrap().cycles as usize + 2);
    assert_eq!(cpu.bus.cycles(), cpu.cycles);
    assert_eq!(decode(0xa9).unwrap().cycles, 2);
    assert_eq!(decode(0x8d).unwrap().cycles, 4);
    assert_eq!(decode(0x00).unwrap().cycles, 7);
}

#[test]
fn test_page_crossing_costs_a_cycle() {
    // LDX #$01; LDA $02FF,X crosses into page 3.
    let cpu = run(vec![0xa2, 0x01, 0xbd, 0xff, 0x02, 0x00]);
    assert_eq!(decode(0xbd).unwrap().cycles, 6);
    assert_eq!(cpu.cycles, 2 + 6 + 1);
    // LDX #$01; LDA $0200,X does not.
    let cpu = run(vec![0xa2, 0x01, 0xbd, 0x00, 0x02, 0x00]);
    assert_eq!(cpu.cycles, 2 + 6);
    // LDX #$01; STA $02FF,X crosses and pays nothing extra.
    let cpu = run(vec![0xa2, 0x01, 0x9d, 0xff, 0x02, 0x00]);
    assert_eq!(cpu.cycles, 2 + 6);
    // LDY #$01; LDA ($F0),Y with the pointer at $02FF crosses: 5 + 1.
    let mut cpu = blank_machine();
    cpu.mem_write_u16(0xf0, 0x02ff);
    cpu.load_and_run(vec![0xa0, 0x01, 0xb1, 0xf0, 0x00]);
    assert_eq!(cpu.cycles, 2 + 5 + 1);
}

#[test]
fn test_branch_cycles() {
    // LDX #$00; BNE +0: not taken, 2 cycles.
    let cpu = run(vec![0xa2, 0x00, 0xd0, 0x00, 0x00]);
    assert_eq!(cpu.cycles, 2 + 2);
    // LDX #$01; BNE +0: taken within the page, 3 cycles.
    let cpu = run(vec![0xa2, 0x01, 0xd0, 0x00, 0x00]);
    assert_eq!(cpu.cycles, 2 + 3);
    // A taken branch from $00FD over the page boundary: 4 cycles.
    let mut cpu = blank_machine();
    cpu.mem_write(0x00fc, 0x90);
    cpu.mem_write(0x00fd, 0x10);
    cpu.mem_write(0x010e, 0x00);
    cpu.pc = 0x00fc;
    cpu.status.set(CpuFlags::CARRY, false);
    assert_eq!(cpu.run(), Halt::Break);
    assert_eq!(cpu.pc, 0x010f);
    assert_eq!(cpu.cycles, 4);
}

#[test]
fn test_frame_clock_after_a_run() {
    let cpu = run(vec![0xa2, 0x00, 0xca, 0xd0, 0xfd, 0xa2, 0x00, 0xca, 0xd0, 0xfd, 0x00]);
    let ppu = &cpu.bus.ppu;
    let dots = ppu.frame * 89342 + ppu.scanline as u64 * 341 + ppu.dot as u64;
    assert!(cpu.cycles > 2000);
    assert_eq!(dots, 3 * cpu.bus.cycles() as u64);
    assert_eq!(cpu.bus.cycles(), cpu.cycles);
}

#[test]
fn test_sprite_dma_stalls_the_cpu() {
    // LDA #$02; STA $4014
    let cpu = run(vec![0xa9, 0x02, 0x8d, 0x14, 0x40, 0x00]);
    // The store falls on cycle 2, an even one.
    assert_eq!(cpu.cycles, 2 + 4 + 513);
    assert_eq!(cpu.bus.dma_stall(), 0);
    let ppu = &cpu.bus.ppu;
    let dots = ppu.frame * 89342 + ppu.scanline as u64 * 341 + ppu.dot as u64;
    assert_eq!(dots, 3 * 519);
}

#[test]
fn test_nmi_is_taken_before_the_next_instruction() {
    // $8000: LDA #$80; STA $2000; then INX; JMP back to INX.
    let program = vec![0xa9, 0x80, 0x8d, 0x00, 0x20, 0xe8, 0x4c, 0x05, 0x80];
    let mut cpu = machine_with_rom(&program, 0x8000);
    cpu.reset();
    let mut steps = 0;
    while cpu.bus.ppu.status & 0x80 == 0 {
        assert_eq!(cpu.step(), None);
        steps += 1;
        assert!(steps < 100_000);
    }
    assert!(cpu.bus.ppu.nmi_pending);
    let pc = cpu.pc;
    let status = cpu.status.bits();
    let sp = cpu.stk_ptr;
    let cycles = cpu.cycles;
    assert_eq!(cpu.step(), None);
    assert_eq!(cpu.pc, 0x9000);
    assert!(!cpu.bus.ppu.nmi_pending);
    assert_eq!(cpu.stk_ptr, sp.wrapping_sub(3));
    assert_eq!(cpu.mem_read(0x0100 + sp as u16), (pc >> 8) as u8);
    assert_eq!(cpu.mem_read(0x0100 + sp.wrapping_sub(1) as u16), (pc & 0xff) as u8);
    assert_eq!(cpu.mem_read(0x0100 + sp.wrapping_sub(2) as u16), (status & !0x10) | 0x20);
    assert!(flag(&cpu, I));
    assert_eq!(cpu.cycles, cycles + 2);
    // The handler at $9000 is a BRK, which stops the run.
    assert_eq!(cpu.step(), Some(Halt::Break));
}

#[test]
fn test_interrupt_entries() {
    let mut cpu = machine_with_rom(&[0xea], 0x8000);
    cpu.reset();
    cpu.pc = 0x1234;
    cpu.status = CpuFlags::from_bits_truncate(0x01);
    cpu.interrupt(InterruptType::BRK);
    assert_eq!(cpu.pc, 0xA000);
    assert_eq!(cpu.mem_read(0x01fd), 0x12);
    assert_eq!(cpu.mem_read(0x01fc), 0x35);
    assert_eq!(cpu.mem_read(0x01fb), 0x31);
    assert_eq!(cpu.status.bits(), 0x05);
    assert_eq!(cpu.cycles, 1);

    let mut cpu = machine_with_rom(&[0xea], 0x8000);
    cpu.reset();
    cpu.pc = 0x1234;
    cpu.status = CpuFlags::from_bits_truncate(0x11);
    cpu._interrupt_nmi();
    assert_eq!(cpu.pc, 0x9000);
    assert_eq!(cpu.mem_read(0x01fd), 0x12);
    assert_eq!(cpu.mem_read(0x01fc), 0x34);
    assert_eq!(cpu.mem_read(0x01fb), 0x21);
    assert_eq!(cpu.status.bits(), 0x15);
    assert_eq!(cpu.cycles, 2);
    assert_eq!(InterruptType::NMI.vector_addr(), 0xfffa);
    assert_eq!(InterruptType::BRK.vector_addr(), 0xfffe);
}

#[test]
fn test_operand_addresses() {
    let mut cpu = blank_machine();
    cpu.load(vec![0x80, 0x02]);
    cpu.mem_write(0x0085, 0x34);
    cpu.mem_write(0x0086, 0x12);
    cpu.mem_write(0x0080, 0xff);
    cpu.mem_write(0x0081, 0x20);
    cpu.reg_x = 0x05;
    cpu.reg_y = 0x01;
    cpu.pc = 0;
    assert_eq!(cpu.get_operand_address(&AddressingMode::Immediate), (0x0000, false));
    assert_eq!(cpu.get_operand_address(&AddressingMode::ZeroPage), (0x0080, false));
    assert_eq!(cpu.get_operand_address(&AddressingMode::ZeroPage_X), (0x0085, false));
    assert_eq!(cpu.get_operand_address(&AddressingMode::ZeroPage_Y), (0x0081, false));
    assert_eq!(cpu.get_operand_address(&AddressingMode::Absolute), (0x0280, false));
    assert_eq!(cpu.get_operand_address(&AddressingMode::Absolute_X), (0x0285, false));
    assert_eq!(cpu.get_operand_address(&AddressingMode::Absolute_Y), (0x0281, false));
    assert_eq!(cpu.get_operand_address(&AddressingMode::Indirect_X), (0x1234, false));
    assert_eq!(cpu.get_operand_address(&AddressingMode::Indirect_Y), (0x2100, true));
    cpu.reg_x = 0x80;
    assert_eq!(cpu.get_operand_address(&AddressingMode::Absolute_X), (0x0300, true));
    assert_eq!(cpu.get_operand_address(&AddressingMode::ZeroPage_X), (0x0000, false));
}

#[test]
fn test_run_with_callback_sees_every_instruction() {
    let mut cpu = blank_machine();
    cpu.load(vec![0xa2, 0x01, 0xca, 0x88, 0x00]);
    cpu.reset();
    let mut seen: Vec<(u16, u8)> = vec![];
    let halt = cpu.run_with_callback(|cpu| {
        seen.push((cpu.pc, cpu.reg_x));
    });
    assert_eq!(halt, Halt::Break);
    assert_eq!(seen, vec![(0, 0), (2, 1), (3, 0), (4, 0)]);
}

#[test]
fn test_run_with_callback_may_change_the_machine() {
    let mut cpu = blank_machine();
    cpu.load(vec![0xe8, 0xe8, 0xe8, 0x00]);
    cpu.reset();
    let halt = cpu.run_with_callback(|cpu| {
        cpu.reg_y = cpu.reg_y.wrapping_add(10);
    });
    assert_eq!(halt, Halt::Break);
    assert_eq!(cpu.reg_x, 3);
    assert_eq!(cpu.reg_y, 40);
}

#[test]
fn test_decode_table() {
    let mut known = 0;
    for code in 0..=255u8 {
        if let Some(op) = decode(code) {
            known += 1;
            assert!((1..=3).contains(&op.len));
            assert!((2..=7).contains(&op.cycles));
        }
    }
    assert_eq!(known, 151);
    let lda = decode(0xb1).unwrap();
    assert_eq!(lda.mnemonic, Mnemonic::Lda);
    assert_eq!(lda.mode, AddressingMode::Indirect_Y);
    assert_eq!((lda.len, lda.cycles), (2, 5));
    let jmp = decode(0x6c).unwrap();
    assert_eq!(jmp.mnemonic, Mnemonic::Jmp);
    assert_eq!(jmp.mode, AddressingMode::Indirect);
    assert_eq!((jmp.len, jmp.cycles), (3, 5));
    assert_eq!(Mnemonic::Lda.name(), "LDA");
    assert_eq!(Mnemonic::Tya.name(), "TYA");
}

#[test]
fn test_is_well_formed() {
    let mut cpu = run(vec![0xa9, 0x01, 0x8d, 0x14, 0x40, 0xe8, 0x00]);
    assert!(cpu.is_well_formed());
    assert!(cpu.bus.is_well_formed());
    assert!(cpu.bus.ppu.is_well_formed());
    cpu.cycles += 1;
    assert!(!cpu.is_well_formed());
    cpu.cycles -= 1;
    cpu.bus.ppu.dot += 1;
    assert!(cpu.bus.ppu.is_well_formed());
    assert!(!cpu.bus.is_well_formed());
    cpu.bus.ppu.dot = 341;
    assert!(!cpu.bus.ppu.is_well_formed());
    let mut cpu = blank_machine();
    cpu.bus.cpu_vram.pop();
    assert!(!cpu.is_well_formed());
    let mut cpu = blank_machine();
    cpu.bus.ppu.oam_data.push(0);
    assert!(!cpu.is_well_formed());
}
