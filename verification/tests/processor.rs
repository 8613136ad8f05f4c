//! Register-level behaviour: reset, stack discipline, interrupt dispatch
//! and the effects of individual instructions.

use six502::Bit;
use six502::CPU;
use six502::MEM;
use six502::StepEvent;

fn machine_with(program: &[u8]) -> (CPU, MEM) {
    let mut memory = MEM::new([0u8; 0x10000]);
    memory.setrange(0xFFFC, &vec![0x00, 0xFF], true);
    memory.setrange(0xFF00, &program.to_vec(), true);
    let cpu = CPU::new(&mut memory);
    (cpu, memory)
}

#[test]
fn reset_vector_is_honored() {
    let mut memory = MEM::new([0u8; 0x10000]);
    memory.setrange(0xFFFC, &vec![0x00, 0xFF], true);
    let cpu = CPU::new(&mut memory);
    assert_eq!(cpu.pc, 0xFF00);
    assert_eq!(cpu.sp, 0xFD);
    assert_eq!(cpu.sr, 0x20);
    assert_eq!(cpu.a, 0);
    assert_eq!(cpu.x, 0);
    assert_eq!(cpu.y, 0);
}

#[test]
fn explicit_reset_rereads_the_vector() {
    let mut memory = MEM::new([0u8; 0x10000]);
    memory.setrange(0xFFFC, &vec![0x34, 0x12], true);
    let mut cpu = CPU::new(&mut memory);
    assert_eq!(cpu.pc, 0x1234);
    memory.setrange(0xFFFC, &vec![0x00, 0x80], true);
    cpu.reset(&mut memory);
    assert_eq!(cpu.pc, 0x8000);
    assert_eq!(cpu.sp, 0xFD);
}

#[test]
fn stack_round_trip_restores_value_and_pointer() {
    let mut memory = MEM::new([0u8; 0x10000]);
    let mut cpu = CPU::new(&mut memory);
    let sp_before = cpu.sp;
    cpu.push(&mut memory, 0x77);
    assert_eq!(cpu.sp, sp_before - 1);
    let pulled = cpu.pull(&mut memory);
    assert_eq!(pulled, 0x77);
    assert_eq!(cpu.sp, sp_before);
}

#[test]
fn stack_pointer_wraps_silently() {
    let mut memory = MEM::new([0u8; 0x10000]);
    let mut cpu = CPU::new(&mut memory);
    cpu.sp = 0x00;
    cpu.push(&mut memory, 0xAA);
    assert_eq!(cpu.sp, 0xFF);
    let pulled = cpu.pull(&mut memory);
    assert_eq!(pulled, 0xAA);
    assert_eq!(cpu.sp, 0x00);
}

#[test]
fn sta_zero_page_writes_accumulator_and_nothing_else() {
    let (mut cpu, mut memory) = machine_with(&[0xA9, 0x42, 0x85, 0x10]);
    let before: Vec<u8> = (0..=0xFFu16).map(|a| memory.get(a)).collect();
    cpu.lexec(&mut memory, 2);
    assert_eq!(memory.get(0x10), 0x42);
    for a in 0..=0xFFu16 {
        if a != 0x10 {
            assert_eq!(memory.get(a), before[a as usize]);
        }
    }
}

#[test]
fn stx_and_sty_store_their_registers() {
    let (mut cpu, mut memory) = machine_with(&[
        0xA9, 0x05, // LDA #$05
        0xAA, // TAX
        0xA9, 0x09, // LDA #$09
        0xA8, // TAY
        0x86, 0x20, // STX $20
        0x84, 0x21, // STY $21
    ]);
    cpu.lexec(&mut memory, 6);
    assert_eq!(memory.get(0x20), 0x05);
    assert_eq!(memory.get(0x21), 0x09);
}

#[test]
fn sta_absolute_uses_little_endian_address() {
    let (mut cpu, mut memory) = machine_with(&[0xA9, 0x66, 0x8D, 0x34, 0x02]);
    cpu.lexec(&mut memory, 2);
    assert_eq!(memory.get(0x0234), 0x66);
}

#[test]
fn store_into_rom_is_rejected_with_event() {
    let (mut cpu, mut memory) = machine_with(&[0xA9, 0x42, 0x8D, 0x80, 0xFF]);
    cpu.lexec(&mut memory, 1);
    let ev = cpu.exec(&mut memory);
    assert_eq!(ev, StepEvent::WriteRejected { addr: 0xFF80, value: 0x42 });
    assert_eq!(memory.get(0xFF80), 0x00);
}

#[test]
fn unknown_opcode_reports_address_and_value() {
    let (mut cpu, mut memory) = machine_with(&[0x44]);
    let ev = cpu.exec(&mut memory);
    assert_eq!(ev, StepEvent::BadOpcode { addr: 0xFF00, opcode: 0x44 });
    assert_eq!(cpu.pc, 0xFF01);
}

#[test]
fn exit_instruction_reports_exit() {
    let (mut cpu, mut memory) = machine_with(&[0x02]);
    let ev = cpu.exec(&mut memory);
    assert_eq!(ev, StepEvent::Exit);
}

#[test]
fn print_instruction_reads_the_addressed_byte() {
    let (mut cpu, mut memory) = machine_with(&[0x03, 0x50, 0x02]);
    memory.set(0x0250, 0x5A, false);
    let ev = cpu.exec(&mut memory);
    assert_eq!(ev, StepEvent::Print { value: 0x5A });
    assert_eq!(cpu.pc, 0xFF03);
}

#[test]
fn adc_zero_page_and_absolute_read_their_operands() {
    let (mut cpu, mut memory) = machine_with(&[
        0xA9, 0x10, // LDA #$10
        0x65, 0x40, // ADC $40
        0x6D, 0x00, 0x03, // ADC $0300
    ]);
    memory.set(0x0040, 0x06, false);
    memory.set(0x0300, 0x20, false);
    cpu.lexec(&mut memory, 3);
    assert_eq!(cpu.a, 0x36);
    assert!(!cpu.sr.get_bit(0));
}

#[test]
fn adc_sets_zero_and_carry_on_wrap_to_zero() {
    let (mut cpu, mut memory) = machine_with(&[0xA9, 0xFF, 0x69, 0x01]);
    cpu.lexec(&mut memory, 2);
    assert_eq!(cpu.a, 0);
    assert!(cpu.sr.get_bit(0)); // carry
    assert!(cpu.sr.get_bit(1)); // zero
    assert!(!cpu.sr.get_bit(7)); // negative
}

#[test]
fn adc_recomputes_carry_rather_than_keeping_it() {
    let (mut cpu, mut memory) = machine_with(&[
        0x38, // SEC
        0xA9, 0x01, // LDA #$01
        0x69, 0x01, // ADC #$01
    ]);
    cpu.lexec(&mut memory, 3);
    assert_eq!(cpu.a, 2);
    assert!(!cpu.sr.get_bit(0));
}

#[test]
fn adc_sets_negative_for_signed_results() {
    let (mut cpu, mut memory) = machine_with(&[0xA9, 0x7F, 0x69, 0x01]);
    cpu.lexec(&mut memory, 2);
    assert_eq!(cpu.a, -128);
    assert!(!cpu.sr.get_bit(0));
    assert!(cpu.sr.get_bit(7));
}

#[test]
fn asl_shifts_and_sets_carry_from_old_sign_bit() {
    let (mut cpu, mut memory) = machine_with(&[0xA9, 0x41, 0x0A]);
    cpu.lexec(&mut memory, 2);
    assert_eq!(cpu.a as u8, 0x82);
    assert!(!cpu.sr.get_bit(0));
    assert!(cpu.sr.get_bit(7));

    let (mut cpu2, mut memory2) = machine_with(&[0xA9, 0x81, 0x0A]);
    cpu2.lexec(&mut memory2, 2);
    assert_eq!(cpu2.a as u8, 0x02);
    assert!(cpu2.sr.get_bit(0));
    assert!(!cpu2.sr.get_bit(7));
}

#[test]
fn transfers_copy_and_recompute_flags() {
    let (mut cpu, mut memory) = machine_with(&[0xA9, 0x00, 0xAA]);
    cpu.lexec(&mut memory, 2);
    assert_eq!(cpu.x, 0);
    assert!(cpu.sr.get_bit(1)); // zero set by TAX

    let (mut cpu2, mut memory2) = machine_with(&[0xA9, 0x90, 0xA8, 0x98]);
    cpu2.lexec(&mut memory2, 3);
    assert_eq!(cpu2.y as u8, 0x90);
    assert_eq!(cpu2.a as u8, 0x90);
    assert!(cpu2.sr.get_bit(7)); // negative set by the transfers
}

#[test]
fn increments_and_decrements_wrap_and_set_flags() {
    let (mut cpu, mut memory) = machine_with(&[0xA9, 0x7F, 0xAA, 0xE8]);
    cpu.lexec(&mut memory, 3);
    assert_eq!(cpu.x, -128);
    assert!(cpu.sr.get_bit(7));

    let (mut cpu2, mut memory2) = machine_with(&[0x88]);
    cpu2.lexec(&mut memory2, 1);
    assert_eq!(cpu2.y, -1);
    assert!(cpu2.sr.get_bit(7));

    let (mut cpu3, mut memory3) = machine_with(&[0xA9, 0x01, 0xAA, 0xCA, 0xC8]);
    cpu3.lexec(&mut memory3, 4);
    assert_eq!(cpu3.x, 0);
    assert_eq!(cpu3.y, 1);
    assert!(!cpu3.sr.get_bit(1)); // INY ran last: Y == 1, zero clear
}

#[test]
fn push_pull_instructions_round_trip() {
    let (mut cpu, mut memory) = machine_with(&[
        0xA9, 0x5C, // LDA #$5C
        0x48, // PHA
        0xA9, 0x00, // LDA #$00
        0x68, // PLA
    ]);
    cpu.lexec(&mut memory, 4);
    assert_eq!(cpu.a, 0x5C);
    assert_eq!(cpu.sp, 0xFD);
}

#[test]
fn status_register_round_trips_through_the_stack() {
    let (mut cpu, mut memory) = machine_with(&[
        0x38, // SEC
        0x08, // PHP
        0x18, // CLC
        0x28, // PLP
    ]);
    cpu.lexec(&mut memory, 4);
    assert!(cpu.sr.get_bit(0));
}

#[test]
fn txs_and_tsx_go_through_the_stack_path() {
    let (mut cpu, mut memory) = machine_with(&[
        0xA9, 0x3B, // LDA #$3B
        0xAA, // TAX
        0x9A, // TXS (pushes X)
        0xA9, 0x00, // LDA #$00
        0xAA, // TAX
        0xBA, // TSX (pulls into X)
    ]);
    cpu.lexec(&mut memory, 4);
    assert_eq!(memory.get(0x01FD), 0x3B);
    assert_eq!(cpu.sp, 0xFC);
    cpu.lexec(&mut memory, 2);
    assert_eq!(cpu.x, 0x3B);
    assert_eq!(cpu.sp, 0xFD);
}

#[test]
fn flag_instructions_touch_only_their_bit() {
    let (mut cpu, mut memory) = machine_with(&[0x38, 0x78, 0xF8, 0x18, 0x58, 0xD8, 0xB8]);
    cpu.lexec(&mut memory, 3);
    assert!(cpu.sr.get_bit(0)); // SEC
    assert!(cpu.sr.get_bit(2)); // SEI
    assert!(cpu.sr.get_bit(3)); // SED
    assert!(cpu.sr.get_bit(5)); // always-one bit untouched
    cpu.lexec(&mut memory, 4);
    assert!(!cpu.sr.get_bit(0)); // CLC
    assert!(!cpu.sr.get_bit(2)); // CLI
    assert!(!cpu.sr.get_bit(3)); // CLD
    assert!(!cpu.sr.get_bit(6)); // CLV
    assert!(cpu.sr.get_bit(5));
}

#[test]
fn jmp_absolute_loads_little_endian_target() {
    let (mut cpu, mut memory) = machine_with(&[0x4C, 0x34, 0x12]);
    cpu.lexec(&mut memory, 1);
    assert_eq!(cpu.pc, 0x1234);
}

#[test]
fn brk_vectors_and_sets_break_flag() {
    let (mut cpu, mut memory) = machine_with(&[0x00]);
    memory.setrange(0xFFFE, &vec![0x00, 0x90], true);
    let sr_before = cpu.sr;
    let ev = cpu.exec(&mut memory);
    assert_eq!(ev, StepEvent::Done);
    assert_eq!(cpu.pc, 0x9000);
    assert!(cpu.sr.get_bit(4));
    assert_eq!(cpu.sp, 0xFA);
    // Pushed: PC high, PC low (of the byte after the opcode), then SR.
    assert_eq!(memory.get(0x01FD), 0xFF);
    assert_eq!(memory.get(0x01FC), 0x01);
    assert_eq!(memory.get(0x01FB), sr_before);
}

#[test]
fn brk_interrupt_by_name_matches_the_instruction() {
    let mut memory = MEM::new([0u8; 0x10000]);
    memory.setrange(0xFFFC, &vec![0x00, 0xFF], true);
    memory.setrange(0xFFFE, &vec![0x00, 0x90], true);
    let mut cpu = CPU::new(&mut memory);
    let known = cpu.interrupt(&mut memory, "BRK");
    assert!(known);
    assert_eq!(cpu.pc, 0x9000);
    assert!(cpu.sr.get_bit(4));
    assert_eq!(cpu.sp, 0xFA);
}

#[test]
fn irq_and_nmi_vector_without_break_flag() {
    let mut memory = MEM::new([0u8; 0x10000]);
    memory.setrange(0xFFFC, &vec![0x00, 0xFF], true);
    memory.setrange(0xFFFE, &vec![0x10, 0x90], true);
    memory.setrange(0xFFFA, &vec![0x20, 0x90], true);
    let mut cpu = CPU::new(&mut memory);

    let known = cpu.interrupt(&mut memory, "IRQ");
    assert!(known);
    assert_eq!(cpu.pc, 0x9010);
    assert!(!cpu.sr.get_bit(4));
    assert_eq!(cpu.sp, 0xFA);
    assert_eq!(memory.get(0x01FD), 0xFF);
    assert_eq!(memory.get(0x01FC), 0x00);

    let known2 = cpu.interrupt(&mut memory, "NMI");
    assert!(known2);
    assert_eq!(cpu.pc, 0x9020);
    assert_eq!(cpu.sp, 0xF7);
}

#[test]
fn reset_interrupt_restores_power_on_state() {
    let mut memory = MEM::new([0u8; 0x10000]);
    memory.setrange(0xFFFC, &vec![0x00, 0xFF], true);
    let mut cpu = CPU::new(&mut memory);
    cpu.a = 5;
    cpu.x = 6;
    cpu.y = 7;
    cpu.sp = 0x80;
    let known = cpu.interrupt(&mut memory, "RESET");
    assert!(known);
    assert_eq!(cpu.pc, 0xFF00);
    assert_eq!(cpu.sp, 0xFD);
    assert_eq!(cpu.sr, 0x20);
    assert_eq!(cpu.a, 0);
    assert_eq!(cpu.x, 0);
    assert_eq!(cpu.y, 0);
}

#[test]
fn unknown_interrupt_name_changes_nothing() {
    let mut memory = MEM::new([0u8; 0x10000]);
    memory.setrange(0xFFFC, &vec![0x00, 0xFF], true);
    let mut cpu = CPU::new(&mut memory);
    let pc = cpu.pc;
    let sp = cpu.sp;
    let known = cpu.interrupt(&mut memory, "HALT");
    assert!(!known);
    assert_eq!(cpu.pc, pc);
    assert_eq!(cpu.sp, sp);
    assert_eq!(memory.get(0x01FD), 0x00);
}

#[test]
fn lda_loads_the_byte_pattern() {
    let (mut cpu, mut memory) = machine_with(&[0xA9, 0xFF]);
    cpu.lexec(&mut memory, 1);
    assert_eq!(cpu.a, -1);
    assert_eq!(cpu.a as u8, 0xFF);
}

#[test]
fn nop_only_advances_pc() {
    let (mut cpu, mut memory) = machine_with(&[0xEA]);
    let sr = cpu.sr;
    let ev = cpu.exec(&mut memory);
    assert_eq!(ev, StepEvent::Done);
    assert_eq!(cpu.pc, 0xFF01);
    assert_eq!(cpu.sr, sr);
}
