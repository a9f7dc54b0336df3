use rustic_yellow::cpu::alu::{add8, alu, daa, shift, sub8, Flags};
use rustic_yellow::cpu::engine::relative_target;
use rustic_yellow::cpu::registers::Registers;
use rustic_yellow::cpu::{Authority, Cpu, CpuError, SYNTHETIC_RETURN};
use rustic_yellow::game::Game;
use rustic_yellow::mbc5::CartridgeError;

/// An image of two banks with `code` at 0x0150 and `routine` at 0x0200.
fn image_with(code: &[u8], routine: &[u8]) -> Vec<u8> {
    let mut rom = vec![0u8; 2 * 0x4000];
    rom[0x143] = 0x80;
    rom[0x147] = 0x1B;
    rom[0x149] = 0x03;
    rom[0x150..0x150 + code.len()].copy_from_slice(code);
    rom[0x200..0x200 + routine.len()].copy_from_slice(routine);
    rom
}

/// An engine with the binary in control at 0x0150.
fn running(code: &[u8]) -> Cpu {
    let mut cpu = Cpu::new(image_with(code, &[0xC9])).unwrap();
    cpu.jump(0x0150).unwrap();
    cpu
}

fn run(cpu: &mut Cpu, steps: usize) -> u32 {
    let mut cycles = 0;
    for _ in 0..steps {
        cycles += cpu.do_cycle().unwrap();
    }
    cycles
}

#[test]
fn a_new_engine_starts_with_native_code_in_control() {
    let cpu = Cpu::new(image_with(&[], &[])).unwrap();
    assert_eq!(cpu.authority(), Authority::Native);
    let regs = cpu.registers();
    assert_eq!(regs.pc, 0x0100);
    assert_eq!(regs.sp, 0xFFFE);
}

#[test]
fn a_wrong_image_is_refused_before_anything_runs() {
    let mut rom = image_with(&[], &[]);
    rom[0x147] = 0x00;
    assert!(matches!(Cpu::new(rom.clone()), Err(CartridgeError::BadCartridgeType)));
    assert!(matches!(Game::new(rom), Err(CartridgeError::BadCartridgeType)));
}

#[test]
fn a_quantum_does_nothing_while_native_code_is_in_control() {
    let mut cpu = Cpu::new(image_with(&[0x3E, 0x42], &[])).unwrap();
    let before = cpu.registers();
    assert_eq!(cpu.do_cycle(), Ok(0));
    assert_eq!(cpu.registers(), before);
    assert_eq!(cpu.authority(), Authority::Native);
}

#[test]
fn loads_and_arithmetic_run() {
    // LD A,0x3A; LD B,0xC6; ADD A,B
    let mut cpu = running(&[0x3E, 0x3A, 0x06, 0xC6, 0x80]);
    assert_eq!(run(&mut cpu, 3), 8 + 8 + 4);
    let r = cpu.registers();
    assert_eq!(r.a, 0x00);
    assert_eq!(r.b, 0xC6);
    assert!(r.zero && r.half_carry && r.carry && !r.subtract);
    assert_eq!(r.pc, 0x0155);
}

#[test]
fn subtraction_sets_borrow_flags() {
    // LD A,0x3E; SUB 0x40
    let mut cpu = running(&[0x3E, 0x3E, 0xD6, 0x40]);
    run(&mut cpu, 2);
    let r = cpu.registers();
    assert_eq!(r.a, 0xFE);
    assert!(!r.zero && r.subtract && !r.half_carry && r.carry);
}

#[test]
fn compare_leaves_the_accumulator() {
    // LD A,0x3C; CP 0x3C
    let mut cpu = running(&[0x3E, 0x3C, 0xFE, 0x3C]);
    run(&mut cpu, 2);
    let r = cpu.registers();
    assert_eq!(r.a, 0x3C);
    assert!(r.zero && r.subtract);
}

#[test]
fn sixteen_bit_loads_and_memory_transfers_run() {
    // LD HL,0xC000; LD (HL),0x5A; LD A,(HL+); LD B,H; LD C,L
    let mut cpu = running(&[0x21, 0x00, 0xC0, 0x36, 0x5A, 0x2A, 0x44, 0x4D]);
    assert_eq!(run(&mut cpu, 5), 12 + 12 + 8 + 4 + 4);
    let r = cpu.registers();
    assert_eq!(cpu.read_byte(0xC000), 0x5A);
    assert_eq!(r.a, 0x5A);
    assert_eq!((r.h, r.l), (0xC0, 0x01));
    assert_eq!((r.b, r.c), (0xC0, 0x01));
}

#[test]
fn relative_jumps_go_both_ways() {
    // JR +2; (skipped: LD A,1); LD A,2; JR -4
    let mut cpu = running(&[0x18, 0x02, 0x3E, 0x01, 0x3E, 0x02, 0x18, 0xFA]);
    run(&mut cpu, 2);
    assert_eq!(cpu.registers().a, 2);
    run(&mut cpu, 1);
    assert_eq!(cpu.registers().pc, 0x0152);
    assert_eq!(relative_target(0x0150, 0x02), 0x0154);
    assert_eq!(relative_target(0x0156, 0xFA), 0x0152);
    assert_eq!(relative_target(0x0000, 0x80), 0xFF82);
}

#[test]
fn conditional_jumps_cost_less_when_not_taken() {
    // XOR A; JR NZ,+5; JR Z,+1
    let mut cpu = running(&[0xAF, 0x20, 0x05, 0x28, 0x01]);
    assert_eq!(run(&mut cpu, 1), 4);
    assert_eq!(cpu.do_cycle(), Ok(8));
    assert_eq!(cpu.registers().pc, 0x0153);
    assert_eq!(cpu.do_cycle(), Ok(12));
    assert_eq!(cpu.registers().pc, 0x0156);
}

#[test]
fn call_and_return_of_the_binary_use_the_stack() {
    // LD SP,0xD000; CALL 0x0200; (0x0200: RET)
    let mut cpu = running(&[0x31, 0x00, 0xD0, 0xCD, 0x00, 0x02]);
    run(&mut cpu, 2);
    let r = cpu.registers();
    assert_eq!(r.pc, 0x0200);
    assert_eq!(r.sp, 0xCFFE);
    assert_eq!(cpu.read_byte(0xCFFE), 0x56);
    assert_eq!(cpu.read_byte(0xCFFF), 0x01);
    assert_eq!(cpu.do_cycle(), Ok(16));
    let r = cpu.registers();
    assert_eq!(r.pc, 0x0156);
    assert_eq!(r.sp, 0xD000);
}

#[test]
fn push_and_pop_move_register_pairs() {
    // LD SP,0xD000; LD BC,0x1234; PUSH BC; POP DE; PUSH AF; POP HL
    let mut cpu = running(&[0x31, 0x00, 0xD0, 0x01, 0x34, 0x12, 0xC5, 0xD1, 0xF5, 0xE1]);
    let mut regs = cpu.registers();
    regs.a = 0x9A;
    regs.zero = true;
    regs.subtract = false;
    regs.half_carry = true;
    regs.carry = false;
    cpu.set_registers(regs);
    run(&mut cpu, 6);
    let r = cpu.registers();
    assert_eq!((r.d, r.e), (0x12, 0x34));
    assert_eq!((r.h, r.l), (0x9A, 0xA0));
    assert_eq!(r.sp, 0xD000);
}

#[test]
fn prefixed_instructions_run() {
    // LD A,0x85; RLC A; SWAP A; BIT 7,A; SET 7,A; RES 0,A
    let mut cpu =
        running(&[0x3E, 0x85, 0xCB, 0x07, 0xCB, 0x37, 0xCB, 0x7F, 0xCB, 0xFF, 0xCB, 0x87]);
    run(&mut cpu, 2);
    assert_eq!(cpu.registers().a, 0x0B);
    assert!(cpu.registers().carry);
    run(&mut cpu, 1);
    assert_eq!(cpu.registers().a, 0xB0);
    assert_eq!(cpu.do_cycle(), Ok(8));
    assert!(!cpu.registers().zero);
    run(&mut cpu, 2);
    assert_eq!(cpu.registers().a, 0xB0);
}

#[test]
fn prefixed_instructions_on_memory_cost_more() {
    // LD HL,0xC000; SET 3,(HL); BIT 3,(HL); SRL (HL)
    let mut cpu = running(&[0x21, 0x00, 0xC0, 0xCB, 0xDE, 0xCB, 0x5E, 0xCB, 0x3E]);
    run(&mut cpu, 1);
    assert_eq!(cpu.do_cycle(), Ok(16));
    assert_eq!(cpu.read_byte(0xC000), 0x08);
    assert_eq!(cpu.do_cycle(), Ok(12));
    assert!(!cpu.registers().zero);
    assert_eq!(cpu.do_cycle(), Ok(16));
    assert_eq!(cpu.read_byte(0xC000), 0x04);
}

#[test]
fn an_undefined_opcode_stops_the_engine() {
    let mut cpu = running(&[0x00, 0xD3]);
    assert_eq!(cpu.do_cycle(), Ok(4));
    let before = cpu.registers();
    assert_eq!(cpu.do_cycle(), Err(CpuError::IllegalOpcode(0xD3)));
    assert_eq!(cpu.registers(), before);
    for &op in &[0xDBu8, 0xDD, 0xE3, 0xE4, 0xEB, 0xEC, 0xED, 0xF4, 0xFC, 0xFD] {
        let mut cpu = running(&[op]);
        assert_eq!(cpu.do_cycle(), Err(CpuError::IllegalOpcode(op)));
    }
}

#[test]
fn halt_idles_until_an_interrupt_is_pending() {
    // HALT; LD A,7
    let mut cpu = running(&[0x76, 0x3E, 0x07]);
    assert_eq!(cpu.do_cycle(), Ok(4));
    assert_eq!(cpu.do_cycle(), Ok(4));
    assert_eq!(cpu.registers().pc, 0x0151);
    cpu.write_byte(0xFFFF, 0x04);
    cpu.write_byte(0xFF0F, 0x04);
    assert_eq!(cpu.do_cycle(), Ok(8));
    assert_eq!(cpu.registers().a, 7);
}

#[test]
fn an_enabled_interrupt_is_dispatched_to_its_vector() {
    // LD SP,0xD000; EI; NOP
    let mut cpu = running(&[0x31, 0x00, 0xD0, 0xFB, 0x00]);
    run(&mut cpu, 2);
    cpu.write_byte(0xFFFF, 0x1F);
    cpu.write_byte(0xFF0F, 0x14);
    assert_eq!(cpu.do_cycle(), Ok(20));
    let r = cpu.registers();
    assert_eq!(r.pc, 0x0050);
    assert_eq!(r.sp, 0xCFFE);
    assert_eq!(cpu.read_byte(0xCFFE), 0x54);
    assert_eq!(cpu.read_byte(0xCFFF), 0x01);
    assert_eq!(cpu.read_byte(0xFF0F), 0x10);
}

#[test]
fn call_runs_a_routine_and_gives_control_back() {
    // routine: LD A,0x42; RET
    let mut cpu = Cpu::new(image_with(&[], &[0x3E, 0x42, 0xC9])).unwrap();
    let sp = cpu.registers().sp;
    assert_eq!(cpu.call(0x0200), Ok(()));
    assert_eq!(cpu.authority(), Authority::Binary { return_pc: Some(SYNTHETIC_RETURN) });
    assert_eq!(cpu.registers().pc, 0x0200);
    assert_eq!(cpu.registers().sp, sp - 2);
    assert_eq!(cpu.do_cycle(), Ok(8));
    assert_eq!(cpu.do_cycle(), Ok(16));
    assert_eq!(cpu.registers().pc, SYNTHETIC_RETURN);
    assert_eq!(cpu.authority(), Authority::Binary { return_pc: Some(SYNTHETIC_RETURN) });
    assert_eq!(cpu.do_cycle(), Ok(0));
    assert_eq!(cpu.authority(), Authority::Native);
    assert_eq!(cpu.registers().sp, sp);
    assert_eq!(cpu.registers().a, 0x42);
    assert_eq!(cpu.do_cycle(), Ok(0));
}

#[test]
fn a_routine_that_unbalances_the_stack_is_caught_at_its_return() {
    // routine: LD HL,0x0001; PUSH HL; RET (returns to the synthetic address
    // by way of its own push, leaving the caller's word on the stack)
    let mut cpu = Cpu::new(image_with(&[], &[0x21, 0x01, 0x00, 0xE5, 0xC9])).unwrap();
    cpu.call(0x0200).unwrap();
    run(&mut cpu, 3);
    assert_eq!(cpu.registers().pc, SYNTHETIC_RETURN);
    assert_eq!(cpu.do_cycle(), Err(CpuError::StackImbalance));
    assert_eq!(cpu.authority(), Authority::Binary { return_pc: Some(SYNTHETIC_RETURN) });
}

#[test]
fn nested_calls_return_in_their_order() {
    let mut cpu = Cpu::new(image_with(&[0xC9], &[0x00, 0xC9])).unwrap();
    cpu.add_hook(0x0201);
    let sp = cpu.registers().sp;
    cpu.call(0x0200).unwrap();
    run(&mut cpu, 1);
    assert_eq!(cpu.do_cycle(), Ok(0));
    assert_eq!(cpu.authority(), Authority::Native);
    assert_eq!(cpu.registers().pc, 0x0201);
    cpu.call(0x0150).unwrap();
    assert_eq!(cpu.registers().sp, sp - 4);
    run(&mut cpu, 2);
    assert_eq!(cpu.authority(), Authority::Native);
    assert_eq!(cpu.registers().sp, sp - 2);
    assert_eq!(cpu.ret(), Ok(()));
    assert_eq!(cpu.registers().pc, SYNTHETIC_RETURN);
    assert_eq!(cpu.do_cycle(), Ok(0));
    assert_eq!(cpu.authority(), Authority::Native);
    assert_eq!(cpu.registers().sp, sp);
}

#[test]
fn jump_hands_control_over_for_good() {
    let mut cpu = Cpu::new(image_with(&[0x00, 0x18, 0xFD], &[])).unwrap();
    let sp = cpu.registers().sp;
    assert_eq!(cpu.jump(0x0150), Ok(()));
    assert_eq!(cpu.authority(), Authority::Binary { return_pc: None });
    assert_eq!(cpu.registers().sp, sp);
    run(&mut cpu, 10);
    assert_eq!(cpu.authority(), Authority::Binary { return_pc: None });
}

#[test]
fn transfers_are_refused_while_the_binary_is_in_control() {
    let mut cpu = running(&[0x00]);
    assert_eq!(cpu.call(0x0200), Err(CpuError::NotNative));
    assert_eq!(cpu.jump(0x0200), Err(CpuError::NotNative));
    assert_eq!(cpu.ret(), Err(CpuError::NotNative));
    assert_eq!(cpu.registers().pc, 0x0150);
}

#[test]
fn targets_outside_rom_and_ram_are_refused() {
    let mut cpu = Cpu::new(image_with(&[], &[])).unwrap();
    for &addr in &[0xE000u16, 0xFE00, 0xFEA0, 0xFF00, 0xFF7F, 0xFFFF] {
        assert_eq!(cpu.call(addr), Err(CpuError::BadTarget(addr)));
        assert_eq!(cpu.jump(addr), Err(CpuError::BadTarget(addr)));
    }
    assert_eq!(cpu.authority(), Authority::Native);
    assert_eq!(cpu.registers().sp, 0xFFFE);
}

#[test]
fn a_stack_pointer_outside_ram_is_refused() {
    let mut cpu = Cpu::new(image_with(&[], &[])).unwrap();
    let mut regs = cpu.registers();
    regs.sp = 0x8000;
    cpu.set_registers(regs);
    assert_eq!(cpu.call(0x0200), Err(CpuError::StackFault));
    assert_eq!(cpu.stack_push(0x1234), Err(CpuError::StackFault));
    assert_eq!(cpu.stack_pop(), Err(CpuError::StackFault));
    regs.sp = 0xC001;
    cpu.set_registers(regs);
    assert_eq!(cpu.stack_push(0x1234), Err(CpuError::StackFault));
    assert_eq!(cpu.registers().sp, 0xC001);
}

#[test]
fn stack_push_and_pop_are_inverse() {
    let mut cpu = Cpu::new(image_with(&[], &[])).unwrap();
    assert_eq!(cpu.stack_push(0xBEEF), Ok(()));
    assert_eq!(cpu.registers().sp, 0xFFFC);
    assert_eq!(cpu.read_byte(0xFFFC), 0xEF);
    assert_eq!(cpu.read_byte(0xFFFD), 0xBE);
    assert_eq!(cpu.stack_pop(), Ok(0xBEEF));
    assert_eq!(cpu.registers().sp, 0xFFFE);
}

#[test]
fn a_hooked_address_hands_control_to_native_code() {
    let mut cpu = Cpu::new(image_with(&[0x00, 0x00, 0x3E, 0x01], &[])).unwrap();
    cpu.add_hook(0x0152);
    cpu.jump(0x0150).unwrap();
    run(&mut cpu, 2);
    assert_eq!(cpu.do_cycle(), Ok(0));
    assert_eq!(cpu.authority(), Authority::Native);
    assert_eq!(cpu.registers().pc, 0x0152);
    assert_eq!(cpu.registers().a, 0x11);
}

#[test]
fn sync_audio_reports_the_cycles_since_the_last_call() {
    let mut game = Game::new(image_with(&[0x00, 0x00, 0xC3, 0x50, 0x01], &[])).unwrap();
    assert_eq!(game.sync_audio(), 0);
    game.cpu().jump(0x0150).unwrap();
    assert_eq!(game.do_cycle(), Ok(4));
    assert_eq!(game.do_cycle(), Ok(4));
    assert_eq!(game.do_cycle(), Ok(16));
    let regs = game.cpu().registers();
    assert_eq!(game.sync_audio(), 24);
    assert_eq!(game.sync_audio(), 0);
    assert_eq!(game.cpu().registers(), regs);
}

#[test]
fn the_timer_counts_and_requests_its_interrupt() {
    // JR -2
    let mut cpu = running(&[0x18, 0xFE]);
    cpu.write_byte(0xFF06, 0xF0);
    cpu.write_byte(0xFF05, 0xFE);
    cpu.write_byte(0xFF07, 0x05);
    run(&mut cpu, 1);
    assert_eq!(cpu.read_byte(0xFF05), 0xFE);
    run(&mut cpu, 1);
    assert_eq!(cpu.read_byte(0xFF05), 0xFF);
    assert_eq!(cpu.read_byte(0xFF0F) & 0x04, 0x00);
    run(&mut cpu, 1);
    assert_eq!(cpu.read_byte(0xFF05), 0xF0);
    assert_eq!(cpu.read_byte(0xFF0F) & 0x04, 0x04);
    run(&mut cpu, 1);
    assert_eq!(cpu.read_byte(0xFF05), 0xF1);
    assert_eq!(cpu.read_byte(0xFF04), 0);
    run(&mut cpu, 18);
    assert_eq!(cpu.read_byte(0xFF04), 1);
}

#[test]
fn a_serial_transfer_completes_with_ones() {
    let mut cpu = running(&[0x18, 0xFE]);
    cpu.write_byte(0xFF01, 0x12);
    cpu.write_byte(0xFF02, 0x81);
    run(&mut cpu, 341);
    assert_eq!(cpu.read_byte(0xFF01), 0x12);
    run(&mut cpu, 1);
    assert_eq!(cpu.read_byte(0xFF01), 0xFF);
    assert_eq!(cpu.read_byte(0xFF02), 0x01);
    assert_eq!(cpu.read_byte(0xFF0F) & 0x08, 0x08);
}

#[test]
fn addition_gives_sum_and_flags() {
    let r = add8(0x3A, 0xC6, false);
    assert_eq!(r.value, 0x00);
    assert_eq!(r.flags, Flags { zero: true, subtract: false, half_carry: true, carry: true });
    let r = add8(0xE1, 0x0F, true);
    assert_eq!(r.value, 0xF1);
    assert_eq!(r.flags, Flags { zero: false, subtract: false, half_carry: true, carry: false });
}

#[test]
fn subtraction_gives_difference_and_flags() {
    let r = sub8(0x3E, 0x0F, false);
    assert_eq!(r.value, 0x2F);
    assert_eq!(r.flags, Flags { zero: false, subtract: true, half_carry: true, carry: false });
    let r = sub8(0x3B, 0x4F, true);
    assert_eq!(r.value, 0xEB);
    assert_eq!(r.flags, Flags { zero: false, subtract: true, half_carry: true, carry: true });
}

#[test]
fn logic_operations_set_their_flags() {
    assert_eq!(alu(4, 0x5A, 0x3F, false).value, 0x1A);
    assert!(alu(4, 0x5A, 0x3F, false).flags.half_carry);
    assert_eq!(alu(5, 0xFF, 0x0F, true).value, 0xF0);
    assert_eq!(alu(6, 0x5A, 0x0F, true).value, 0x5F);
    assert!(alu(5, 0x12, 0x12, false).flags.zero);
    assert_eq!(alu(7, 0x3C, 0x2F, false).value, 0x3C);
}

#[test]
fn rotations_and_shifts_move_bits() {
    assert_eq!(shift(0, 0x85, false).value, 0x0B);
    assert!(shift(0, 0x85, false).flags.carry);
    assert_eq!(shift(1, 0x01, false).value, 0x80);
    assert_eq!(shift(2, 0x80, true).value, 0x01);
    assert_eq!(shift(3, 0x01, true).value, 0x80);
    assert_eq!(shift(4, 0xFF, false).value, 0xFE);
    assert_eq!(shift(5, 0x8A, false).value, 0xC5);
    assert_eq!(shift(6, 0xF1, true).value, 0x1F);
    assert!(!shift(6, 0xF1, true).flags.carry);
    assert_eq!(shift(7, 0xFF, false).value, 0x7F);
    assert!(shift(7, 0x01, false).flags.zero);
}

#[test]
fn decimal_adjust_corrects_packed_decimals() {
    let sum = add8(0x45, 0x38, false);
    let r = daa(sum.value, sum.flags);
    assert_eq!(r.value, 0x83);
    assert!(!r.flags.carry);
    let diff = sub8(0x83, 0x38, false);
    let r = daa(diff.value, diff.flags);
    assert_eq!(r.value, 0x45);
    let sum = add8(0x99, 0x01, false);
    let r = daa(sum.value, sum.flags);
    assert_eq!(r.value, 0x00);
    assert!(r.flags.carry && r.flags.zero);
}

#[test]
fn register_pairs_are_high_byte_first() {
    let mut r = Registers::new();
    r.set_bc(0x1234);
    assert_eq!((r.b, r.c), (0x12, 0x34));
    assert_eq!(r.bc(), 0x1234);
    r.set_af(0xABFF);
    assert_eq!(r.a, 0xAB);
    assert_eq!(r.f(), 0xF0);
    assert_eq!(r.af(), 0xABF0);
}

#[test]
fn increments_and_decrements_set_zero_and_half_carry() {
    // LD B,0x0F; INC B; LD C,0x01; DEC C; LD D,0xFF; INC D; LD E,0x10; DEC E
    let mut cpu = running(&[
        0x06, 0x0F, 0x04, 0x0E, 0x01, 0x0D, 0x16, 0xFF, 0x14, 0x1E, 0x10, 0x1D,
    ]);
    let mut regs = cpu.registers();
    regs.carry = true;
    cpu.set_registers(regs);
    run(&mut cpu, 2);
    let r = cpu.registers();
    assert_eq!(r.b, 0x10);
    assert!(!r.zero && !r.subtract && r.half_carry && r.carry);
    run(&mut cpu, 2);
    let r = cpu.registers();
    assert_eq!(r.c, 0x00);
    assert!(r.zero && r.subtract && !r.half_carry && r.carry);
    run(&mut cpu, 2);
    let r = cpu.registers();
    assert_eq!(r.d, 0x00);
    assert!(r.zero && r.half_carry);
    run(&mut cpu, 2);
    let r = cpu.registers();
    assert_eq!(r.e, 0x0F);
    assert!(!r.zero && r.subtract && r.half_carry);
}

#[test]
fn the_byte_that_hl_points_to_is_an_operand_like_a_register() {
    // LD HL,0xC010; LD (HL),0xFF; INC (HL); DEC (HL); LD B,(HL); LD (HL),B; ADD A,(HL)
    let mut cpu = running(&[0x21, 0x10, 0xC0, 0x36, 0xFF, 0x34, 0x35, 0x46, 0x70, 0x86]);
    run(&mut cpu, 2);
    assert_eq!(cpu.do_cycle(), Ok(12));
    assert_eq!(cpu.read_byte(0xC010), 0x00);
    assert!(cpu.registers().zero);
    assert_eq!(cpu.do_cycle(), Ok(12));
    assert_eq!(cpu.read_byte(0xC010), 0xFF);
    assert_eq!(cpu.do_cycle(), Ok(8));
    assert_eq!(cpu.registers().b, 0xFF);
    assert_eq!(cpu.do_cycle(), Ok(8));
    assert_eq!(cpu.do_cycle(), Ok(8));
    assert_eq!(cpu.registers().a, 0x10);
    assert!(cpu.registers().carry && cpu.registers().half_carry);
}

#[test]
fn register_pairs_count_without_flags() {
    // LD BC,0xFFFF; INC BC; LD DE,0x0000; DEC DE; LD SP,0x00FF; INC SP
    let mut cpu = running(&[0x01, 0xFF, 0xFF, 0x03, 0x11, 0x00, 0x00, 0x1B, 0x31, 0xFF, 0x00, 0x33]);
    let before = cpu.registers();
    assert_eq!(run(&mut cpu, 6), 12 + 8 + 12 + 8 + 12 + 8);
    let r = cpu.registers();
    assert_eq!(r.bc(), 0x0000);
    assert_eq!(r.de(), 0xFFFF);
    assert_eq!(r.sp, 0x0100);
    assert_eq!(
        (r.zero, r.subtract, r.half_carry, r.carry),
        (before.zero, before.subtract, before.half_carry, before.carry)
    );
}

#[test]
fn additions_to_hl_carry_from_bit_eleven_and_fifteen() {
    // LD HL,0x8A23; LD BC,0x0605; ADD HL,BC; ADD HL,HL
    let mut cpu = running(&[0x21, 0x23, 0x8A, 0x01, 0x05, 0x06, 0x09, 0x29]);
    run(&mut cpu, 3);
    let r = cpu.registers();
    assert_eq!(r.hl(), 0x9028);
    assert!(r.half_carry && !r.carry && !r.subtract);
    assert!(r.zero);
    assert_eq!(cpu.do_cycle(), Ok(8));
    let r = cpu.registers();
    assert_eq!(r.hl(), 0x2050);
    assert!(!r.half_carry && r.carry);
}

#[test]
fn the_stack_pointer_takes_signed_offsets() {
    // LD SP,0xFFF8; ADD SP,+2; LD HL,SP-1; LD SP,HL; LD (0xC100),SP
    let mut cpu = running(&[0x31, 0xF8, 0xFF, 0xE8, 0x02, 0xF8, 0xFF, 0xF9, 0x08, 0x00, 0xC1]);
    run(&mut cpu, 1);
    assert_eq!(cpu.do_cycle(), Ok(16));
    let r = cpu.registers();
    assert_eq!(r.sp, 0xFFFA);
    assert!(!r.zero && !r.subtract && !r.half_carry && !r.carry);
    assert_eq!(cpu.do_cycle(), Ok(12));
    let r = cpu.registers();
    assert_eq!(r.hl(), 0xFFF9);
    assert!(r.half_carry && r.carry);
    assert_eq!(cpu.do_cycle(), Ok(8));
    assert_eq!(cpu.registers().sp, 0xFFF9);
    assert_eq!(cpu.do_cycle(), Ok(20));
    assert_eq!(cpu.read_byte(0xC100), 0xF9);
    assert_eq!(cpu.read_byte(0xC101), 0xFF);
}

#[test]
fn the_high_page_has_its_own_loads() {
    // LD A,0x77; LDH (0x80),A; LD C,0x81; LD (C),A; XOR A; LDH A,(0x80); LD B,A; XOR A; LD A,(C)
    let mut cpu = running(&[
        0x3E, 0x77, 0xE0, 0x80, 0x0E, 0x81, 0xE2, 0xAF, 0xF0, 0x80, 0x47, 0xAF, 0xF2,
    ]);
    run(&mut cpu, 1);
    assert_eq!(cpu.do_cycle(), Ok(12));
    run(&mut cpu, 1);
    assert_eq!(cpu.do_cycle(), Ok(8));
    assert_eq!(cpu.read_byte(0xFF80), 0x77);
    assert_eq!(cpu.read_byte(0xFF81), 0x77);
    run(&mut cpu, 1);
    assert_eq!(cpu.do_cycle(), Ok(12));
    run(&mut cpu, 2);
    assert_eq!(cpu.do_cycle(), Ok(8));
    let r = cpu.registers();
    assert_eq!((r.a, r.b), (0x77, 0x77));
}

#[test]
fn the_accumulator_is_stored_and_loaded_by_address() {
    // LD A,0x5A; LD (0xC200),A; LD BC,0xC200; LD DE,0xC201; XOR A; LD A,(BC); LD (DE),A;
    // LD HL,0xC201; LD A,(HL-); LD (HL+),A; LD A,(0xC201)
    let mut cpu = running(&[
        0x3E, 0x5A, 0xEA, 0x00, 0xC2, 0x01, 0x00, 0xC2, 0x11, 0x01, 0xC2, 0xAF, 0x0A, 0x12, 0x21,
        0x01, 0xC2, 0x3A, 0x22, 0xFA, 0x01, 0xC2,
    ]);
    run(&mut cpu, 1);
    assert_eq!(cpu.do_cycle(), Ok(16));
    run(&mut cpu, 5);
    assert_eq!(cpu.read_byte(0xC201), 0x5A);
    run(&mut cpu, 2);
    assert_eq!(cpu.registers().hl(), 0xC200);
    run(&mut cpu, 1);
    assert_eq!(cpu.registers().hl(), 0xC201);
    assert_eq!(cpu.do_cycle(), Ok(16));
    assert_eq!(cpu.registers().a, 0x5A);
}

#[test]
fn absolute_jumps_follow_their_condition() {
    // XOR A; JP NZ,0x0200; JP Z,0x0157; (2 bytes skipped); LD HL,0x0200; JP HL
    let mut cpu =
        running(&[0xAF, 0xC2, 0x00, 0x02, 0xCA, 0x57, 0x01, 0x21, 0x00, 0x02, 0xE9]);
    run(&mut cpu, 1);
    assert_eq!(cpu.do_cycle(), Ok(12));
    assert_eq!(cpu.registers().pc, 0x0154);
    assert_eq!(cpu.do_cycle(), Ok(16));
    assert_eq!(cpu.registers().pc, 0x0157);
    run(&mut cpu, 1);
    assert_eq!(cpu.do_cycle(), Ok(4));
    assert_eq!(cpu.registers().pc, 0x0200);
}

#[test]
fn conditional_calls_and_returns_follow_their_condition() {
    // at 0x0150: LD SP,0xD000; SCF; CALL NC,0x0200; CALL C,0x0200
    // at 0x0200: RET NC; RET C
    let mut cpu = Cpu::new(image_with(
        &[0x31, 0x00, 0xD0, 0x37, 0xD4, 0x00, 0x02, 0xDC, 0x00, 0x02],
        &[0xD0, 0xD8],
    ))
    .unwrap();
    cpu.jump(0x0150).unwrap();
    run(&mut cpu, 2);
    assert_eq!(cpu.do_cycle(), Ok(12));
    assert_eq!(cpu.registers().pc, 0x0157);
    assert_eq!(cpu.do_cycle(), Ok(24));
    assert_eq!(cpu.registers().pc, 0x0200);
    assert_eq!(cpu.registers().sp, 0xCFFE);
    assert_eq!(cpu.do_cycle(), Ok(8));
    assert_eq!(cpu.registers().pc, 0x0201);
    assert_eq!(cpu.do_cycle(), Ok(20));
    assert_eq!(cpu.registers().pc, 0x015A);
    assert_eq!(cpu.registers().sp, 0xD000);
}

#[test]
fn restarts_call_the_low_vectors() {
    // LD SP,0xD000; RST 0x28
    let mut cpu = running(&[0x31, 0x00, 0xD0, 0xEF]);
    run(&mut cpu, 1);
    assert_eq!(cpu.do_cycle(), Ok(16));
    assert_eq!(cpu.registers().pc, 0x0028);
    assert_eq!(cpu.read_byte(0xCFFE), 0x54);
    assert_eq!(cpu.read_byte(0xCFFF), 0x01);
}

#[test]
fn interrupts_wait_for_the_master_flag() {
    // LD SP,0xD000; DI; NOP; EI; NOP -- and at 0x0040: RETI
    let mut rom = image_with(&[0x31, 0x00, 0xD0, 0xF3, 0x00, 0xFB, 0x00], &[]);
    rom[0x40] = 0xD9;
    let mut cpu = Cpu::new(rom).unwrap();
    cpu.jump(0x0150).unwrap();
    cpu.write_byte(0xFFFF, 0x01);
    cpu.write_byte(0xFF0F, 0x01);
    run(&mut cpu, 4);
    assert_eq!(cpu.registers().pc, 0x0156);
    assert_eq!(cpu.do_cycle(), Ok(20));
    assert_eq!(cpu.registers().pc, 0x0040);
    assert_eq!(cpu.read_byte(0xFF0F), 0x00);
    // the handler returns and enables interrupts again
    cpu.write_byte(0xFF0F, 0x01);
    assert_eq!(cpu.do_cycle(), Ok(16));
    assert_eq!(cpu.registers().pc, 0x0156);
    assert_eq!(cpu.do_cycle(), Ok(20));
    assert_eq!(cpu.registers().pc, 0x0040);
}

#[test]
fn the_lowest_pending_line_is_served_first() {
    let mut cpu = running(&[0x31, 0x00, 0xD0, 0xFB]);
    run(&mut cpu, 2);
    cpu.write_byte(0xFFFF, 0x1E);
    cpu.write_byte(0xFF0F, 0x1D);
    assert_eq!(cpu.do_cycle(), Ok(20));
    // line 0 is requested but not enabled; line 2 is the lowest of the rest
    assert_eq!(cpu.registers().pc, 0x0050);
    assert_eq!(cpu.read_byte(0xFF0F), 0x19);
}

#[test]
fn flag_instructions_touch_the_flags_alone() {
    // LD A,0x35; CPL; SCF; CCF; CCF
    let mut cpu = running(&[0x3E, 0x35, 0x2F, 0x37, 0x3F, 0x3F]);
    let mut regs = cpu.registers();
    regs.zero = true;
    cpu.set_registers(regs);
    run(&mut cpu, 2);
    let r = cpu.registers();
    assert_eq!(r.a, 0xCA);
    assert!(r.zero && r.subtract && r.half_carry);
    run(&mut cpu, 1);
    let r = cpu.registers();
    assert!(r.zero && !r.subtract && !r.half_carry && r.carry);
    run(&mut cpu, 1);
    assert!(!cpu.registers().carry);
    run(&mut cpu, 1);
    assert!(cpu.registers().carry);
    assert_eq!(cpu.registers().a, 0xCA);
}

#[test]
fn rotations_of_the_accumulator_clear_the_zero_flag() {
    // XOR A; RLCA; LD A,0x80; RLA; RRA; RRCA
    let mut cpu = running(&[0xAF, 0x07, 0x3E, 0x80, 0x17, 0x1F, 0x0F]);
    run(&mut cpu, 2);
    let r = cpu.registers();
    assert_eq!(r.a, 0);
    assert!(!r.zero && !r.carry);
    run(&mut cpu, 2);
    let r = cpu.registers();
    assert_eq!(r.a, 0x00);
    assert!(!r.zero && r.carry);
    run(&mut cpu, 1);
    let r = cpu.registers();
    assert_eq!(r.a, 0x80);
    assert!(!r.carry);
    run(&mut cpu, 1);
    let r = cpu.registers();
    assert_eq!(r.a, 0x40);
    assert!(!r.carry);
}

#[test]
fn additions_and_subtractions_take_the_carry_in() {
    // LD A,0xFF; ADD A,0x01; ADC A,0x00; SCF; SBC A,0x01
    let mut cpu = running(&[0x3E, 0xFF, 0xC6, 0x01, 0xCE, 0x00, 0x37, 0xDE, 0x01]);
    run(&mut cpu, 2);
    assert_eq!(cpu.registers().a, 0x00);
    assert!(cpu.registers().carry);
    run(&mut cpu, 1);
    assert_eq!(cpu.registers().a, 0x01);
    assert!(!cpu.registers().carry);
    run(&mut cpu, 2);
    let r = cpu.registers();
    assert_eq!(r.a, 0xFF);
    assert!(r.carry && r.half_carry && r.subtract);
}

#[test]
fn stop_passes_over_its_second_byte() {
    let mut cpu = running(&[0x10, 0x00, 0x00]);
    assert_eq!(cpu.do_cycle(), Ok(4));
    assert_eq!(cpu.registers().pc, 0x0152);
}

#[test]
fn the_flags_come_back_from_the_stack_without_their_low_bits() {
    // LD SP,0xD000; LD BC,0x12FF; PUSH BC; POP AF; PUSH AF; POP DE
    let mut cpu = running(&[0x31, 0x00, 0xD0, 0x01, 0xFF, 0x12, 0xC5, 0xF1, 0xF5, 0xD1]);
    run(&mut cpu, 6);
    let r = cpu.registers();
    assert_eq!(r.a, 0x12);
    assert!(r.zero && r.subtract && r.half_carry && r.carry);
    assert_eq!((r.d, r.e), (0x12, 0xF0));
}

#[test]
fn a_balanced_routine_gives_back_the_stack_pointer_it_got() {
    // routine: PUSH BC; PUSH DE; CALL 0x0210; POP DE; POP BC; RET -- and at 0x0210: RET
    let mut routine = vec![0xC5, 0xD5, 0xCD, 0x10, 0x02, 0xD1, 0xC1, 0xC9];
    routine.resize(0x11, 0x00);
    routine[0x10] = 0xC9;
    let mut cpu = Cpu::new(image_with(&[], &routine)).unwrap();
    let mut regs = cpu.registers();
    regs.sp = 0xDFF0;
    cpu.set_registers(regs);
    cpu.call(0x0200).unwrap();
    let mut steps = 0;
    while cpu.authority() != Authority::Native {
        cpu.do_cycle().unwrap();
        steps += 1;
        assert!(steps < 100);
    }
    assert_eq!(steps, 8);
    assert_eq!(cpu.registers().sp, 0xDFF0);
    assert_eq!(cpu.registers().pc, SYNTHETIC_RETURN);
    assert_eq!(cpu.cycles(), 16 + 16 + 24 + 16 + 12 + 12 + 16);
}

#[test]
fn a_run_ends_when_native_code_has_control() {
    // routine: LD A,0x42; RET
    let mut cpu = Cpu::new(image_with(&[0x18, 0xFE], &[0x3E, 0x42, 0xC9])).unwrap();
    let sp = cpu.registers().sp;
    assert_eq!(cpu.run(10), Ok(true));
    cpu.call(0x0200).unwrap();
    assert_eq!(cpu.run(2), Ok(false));
    assert_eq!(cpu.registers().pc, SYNTHETIC_RETURN);
    assert_eq!(cpu.run(0), Ok(false));
    assert_eq!(cpu.run(10), Ok(true));
    assert_eq!(cpu.registers().sp, sp);
    assert_eq!(cpu.cycles(), 24);
    // a loop never gives control back
    cpu.jump(0x0150).unwrap();
    assert_eq!(cpu.run(1000), Ok(false));
    assert_eq!(cpu.cycles(), 24 + 12 * 1000);
}

#[test]
fn a_run_stops_at_an_error() {
    let mut cpu = Cpu::new(image_with(&[0x00, 0x00, 0xDD, 0x00], &[])).unwrap();
    cpu.jump(0x0150).unwrap();
    assert_eq!(cpu.run(10), Err(CpuError::IllegalOpcode(0xDD)));
    assert_eq!(cpu.registers().pc, 0x0152);
    assert_eq!(cpu.cycles(), 8);
}
