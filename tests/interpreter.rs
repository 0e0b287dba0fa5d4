use chip8::cpu::CPU;
use chip8::instruction::{decode, Instr};
use chip8::machine::{Fault, Status};

fn cpu_with(program: &[u8]) -> CPU {
    let mut cpu = CPU::new();
    cpu.load_program(program.to_vec()).unwrap();
    cpu
}

fn run_steps(cpu: &mut CPU, n: usize) {
    for _ in 0..n {
        assert_eq!(cpu.step_with(0), Ok(Status::Running));
    }
}

#[test]
fn nested_calls_add_twice() {
    let mut cpu = CPU::new();
    cpu.set_pc(0);
    cpu.registers[0] = 5;
    cpu.registers[1] = 10;
    cpu.write_memory(0x000, &[0x21, 0x00, 0x21, 0x00, 0x00, 0x00]).unwrap();
    cpu.write_memory(0x100, &[0x80, 0x14, 0x80, 0x14, 0x00, 0xEE]).unwrap();
    assert_eq!(cpu.run(100), Ok(Status::Halted));
    assert_eq!(cpu.registers[0], 45);
    assert_eq!(cpu.stack_pointer(), 0);
}

#[test]
fn nested_calls_with_subroutine_at_0x200() {
    let mut cpu = CPU::new();
    cpu.set_pc(0);
    cpu.registers[0] = 5;
    cpu.registers[1] = 10;
    cpu.write_memory(0x000, &[0x22, 0x00, 0x22, 0x00, 0x00, 0x00]).unwrap();
    cpu.write_memory(0x200, &[0x80, 0x14, 0x80, 0x14, 0x00, 0xEE]).unwrap();
    assert_eq!(cpu.run(100), Ok(Status::Halted));
    assert_eq!(cpu.registers[0], 45);
}

#[test]
fn new_loads_font_and_starts_at_program_origin() {
    let cpu = CPU::new();
    assert_eq!(cpu.pc(), 0x200);
    assert_eq!(cpu.memory_at(0x50), 0xF0);
    assert_eq!(cpu.memory_at(0x55), 0x20);
    assert_eq!(cpu.memory_at(0x9F), 0x80);
    assert_eq!(cpu.memory_at(0xA0), 0);
    assert_eq!(cpu.memory_at(0x4F), 0);
    assert!(cpu.framebuffer().iter().all(|&c| c == 0));
    assert_eq!(cpu.stack_pointer(), 0);
}

#[test]
fn load_program_writes_at_origin_and_rejects_oversize() {
    let mut cpu = cpu_with(&[0x12, 0x34]);
    assert_eq!(cpu.memory_at(0x200), 0x12);
    assert_eq!(cpu.memory_at(0x201), 0x34);
    assert_eq!(cpu.load_program(vec![0u8; 0xE00]), Ok(()));
    assert_eq!(cpu.load_program(vec![1u8; 0xE01]), Err(Fault::OutOfBounds));
    assert_eq!(cpu.memory_at(0x200), 0);
}

#[test]
fn decode_picks_fields() {
    assert_eq!(decode(0xD123), Some(Instr::Draw { x: 1, y: 2, n: 3 }));
    assert_eq!(decode(0x2ABC), Some(Instr::Call { addr: 0xABC }));
    assert_eq!(decode(0x7F10), Some(Instr::AddImm { x: 0xF, kk: 0x10 }));
    assert_eq!(decode(0x8AB7), Some(Instr::SubRegRev { x: 0xA, y: 0xB }));
    assert_eq!(decode(0xF365), Some(Instr::RegLoad { x: 3 }));
    assert_eq!(decode(0xE4A1), Some(Instr::SkipNotKey { x: 4 }));
    assert_eq!(decode(0x0000), Some(Instr::Halt));
    assert_eq!(decode(0x8008), None);
    assert_eq!(decode(0x5121), None);
    assert_eq!(decode(0x0123), None);
    assert_eq!(decode(0xFFFF), None);
}

#[test]
fn add_imm_round_trip_restores_register() {
    // V3 = 200; V3 += 100; V3 += 156
    let mut cpu = cpu_with(&[0x63, 200, 0x73, 100, 0x73, 156]);
    cpu.registers[0xF] = 7;
    run_steps(&mut cpu, 2);
    assert_eq!(cpu.registers[3], 44);
    assert_eq!(cpu.registers[0xF], 7);
    run_steps(&mut cpu, 1);
    assert_eq!(cpu.registers[3], 200);
    assert_eq!(cpu.registers[0xF], 7);
}

#[test]
fn add_reg_sets_carry_exactly_on_overflow() {
    let mut cpu = cpu_with(&[0x80, 0x14, 0x82, 0x34]);
    cpu.registers[0] = 200;
    cpu.registers[1] = 100;
    cpu.registers[2] = 100;
    cpu.registers[3] = 155;
    run_steps(&mut cpu, 1);
    assert_eq!(cpu.registers[0], 44);
    assert_eq!(cpu.registers[0xF], 1);
    run_steps(&mut cpu, 1);
    assert_eq!(cpu.registers[2], 255);
    assert_eq!(cpu.registers[0xF], 0);
}

#[test]
fn sub_reg_flag_is_not_borrow() {
    let mut cpu = cpu_with(&[0x80, 0x15, 0x82, 0x35, 0x84, 0x57]);
    cpu.registers[0] = 5;
    cpu.registers[1] = 10;
    cpu.registers[2] = 10;
    cpu.registers[3] = 10;
    cpu.registers[4] = 10;
    cpu.registers[5] = 3;
    run_steps(&mut cpu, 1);
    assert_eq!(cpu.registers[0], 251);
    assert_eq!(cpu.registers[0xF], 0);
    run_steps(&mut cpu, 1);
    assert_eq!(cpu.registers[2], 0);
    assert_eq!(cpu.registers[0xF], 1);
    // V4 = V5 - V4 = 3 - 10
    run_steps(&mut cpu, 1);
    assert_eq!(cpu.registers[4], 249);
    assert_eq!(cpu.registers[0xF], 0);
}

#[test]
fn shifts_capture_the_bit_shifted_out() {
    let mut cpu = cpu_with(&[0x80, 0x06, 0x81, 0x0E, 0x82, 0x06, 0x83, 0x0E]);
    cpu.registers[0] = 0b0000_0011;
    cpu.registers[1] = 0b1000_0001;
    cpu.registers[2] = 0b0000_0010;
    cpu.registers[3] = 0b0100_0000;
    run_steps(&mut cpu, 1);
    assert_eq!(cpu.registers[0], 1);
    assert_eq!(cpu.registers[0xF], 1);
    run_steps(&mut cpu, 1);
    assert_eq!(cpu.registers[1], 2);
    assert_eq!(cpu.registers[0xF], 1);
    run_steps(&mut cpu, 1);
    assert_eq!(cpu.registers[2], 1);
    assert_eq!(cpu.registers[0xF], 0);
    run_steps(&mut cpu, 1);
    assert_eq!(cpu.registers[3], 0x80);
    assert_eq!(cpu.registers[0xF], 0);
}

#[test]
fn bitwise_ops_combine_registers() {
    let mut cpu = cpu_with(&[0x80, 0x11, 0x82, 0x12, 0x84, 0x13, 0x86, 0x10]);
    cpu.registers[0] = 0b1100;
    cpu.registers[1] = 0b1010;
    cpu.registers[2] = 0b1100;
    cpu.registers[4] = 0b1100;
    cpu.registers[7] = 0b1010;
    run_steps(&mut cpu, 4);
    assert_eq!(cpu.registers[0], 0b1110);
    assert_eq!(cpu.registers[2], 0b1000);
    assert_eq!(cpu.registers[4], 0b0110);
    assert_eq!(cpu.registers[6], 0b1010);
}

#[test]
fn call_then_return_resumes_after_call() {
    let mut cpu = cpu_with(&[0x23, 0x00]);
    cpu.write_memory(0x300, &[0x00, 0xEE]).unwrap();
    run_steps(&mut cpu, 1);
    assert_eq!(cpu.pc(), 0x300);
    assert_eq!(cpu.stack_pointer(), 1);
    run_steps(&mut cpu, 1);
    assert_eq!(cpu.pc(), 0x202);
    assert_eq!(cpu.stack_pointer(), 0);
}

#[test]
fn skips_compare_registers_and_immediates() {
    // 3 0 05 skips; 4 0 05 does not; 5 0 1 0 skips; 9 0 1 0 does not
    let mut cpu = cpu_with(&[0x30, 0x05, 0, 0, 0x40, 0x05, 0x50, 0x10, 0, 0, 0x90, 0x10, 0x12, 0x00]);
    cpu.registers[0] = 5;
    cpu.registers[1] = 5;
    run_steps(&mut cpu, 1);
    assert_eq!(cpu.pc(), 0x204);
    run_steps(&mut cpu, 1);
    assert_eq!(cpu.pc(), 0x206);
    run_steps(&mut cpu, 1);
    assert_eq!(cpu.pc(), 0x20A);
    run_steps(&mut cpu, 1);
    assert_eq!(cpu.pc(), 0x20C);
}

#[test]
fn jumps_set_the_program_counter() {
    let mut cpu = cpu_with(&[0x1A, 0xBC]);
    run_steps(&mut cpu, 1);
    assert_eq!(cpu.pc(), 0xABC);
    let mut cpu = cpu_with(&[0xB3, 0x00]);
    cpu.registers[0] = 0x10;
    run_steps(&mut cpu, 1);
    assert_eq!(cpu.pc(), 0x310);
}

#[test]
fn halt_stops_the_program() {
    let mut cpu = cpu_with(&[0x60, 0x01, 0x00, 0x00, 0x60, 0x02]);
    assert_eq!(cpu.run(10), Ok(Status::Halted));
    assert_eq!(cpu.registers[0], 1);
}

#[test]
fn run_stops_after_its_budget() {
    let mut cpu = cpu_with(&[0x12, 0x00]);
    assert_eq!(cpu.run(5), Ok(Status::Running));
    assert_eq!(cpu.pc(), 0x200);
}

#[test]
fn sprite_wraps_at_right_edge() {
    // I = 0x300, V0 = 63, V1 = 0, draw one row of eight set bits
    let mut cpu = cpu_with(&[0xA3, 0x00, 0x60, 63, 0x61, 0x00, 0xD0, 0x11]);
    cpu.write_memory(0x300, &[0xFF]).unwrap();
    run_steps(&mut cpu, 4);
    let fb = cpu.framebuffer();
    assert_eq!(fb[63], 1);
    for col in 0..7 {
        assert_eq!(fb[col], 1);
    }
    assert_eq!(fb[7], 0);
    assert_eq!(fb[62], 0);
    assert_eq!(fb[64], 0);
    assert_eq!(cpu.registers[0xF], 0);
    assert!(cpu.redraw_requested());
}

#[test]
fn sprite_wraps_at_bottom_edge() {
    let mut cpu = cpu_with(&[0xA3, 0x00, 0x60, 0x00, 0x61, 31, 0xD0, 0x12]);
    cpu.write_memory(0x300, &[0x80, 0x80]).unwrap();
    run_steps(&mut cpu, 4);
    let fb = cpu.framebuffer();
    assert_eq!(fb[31 * 64], 1);
    assert_eq!(fb[0], 1);
    assert_eq!(fb[64], 0);
}

#[test]
fn drawing_twice_restores_framebuffer_and_reports_collision() {
    let mut cpu = cpu_with(&[0xA3, 0x00, 0x60, 10, 0x61, 5, 0xD0, 0x13, 0xD0, 0x13]);
    cpu.write_memory(0x300, &[0b1010_0000, 0b0100_0000, 0b1111_0000]).unwrap();
    run_steps(&mut cpu, 4);
    assert_eq!(cpu.registers[0xF], 0);
    assert_eq!(cpu.framebuffer()[5 * 64 + 10], 1);
    assert_eq!(cpu.framebuffer()[5 * 64 + 11], 0);
    assert_eq!(cpu.framebuffer()[7 * 64 + 13], 1);
    run_steps(&mut cpu, 1);
    assert_eq!(cpu.registers[0xF], 1);
    assert!(cpu.framebuffer().iter().all(|&c| c == 0));
}

#[test]
fn blank_sprite_drawn_twice_reports_no_collision() {
    let mut cpu = cpu_with(&[0xA3, 0x00, 0xD0, 0x12, 0xD0, 0x12]);
    run_steps(&mut cpu, 3);
    assert_eq!(cpu.registers[0xF], 0);
    assert!(cpu.framebuffer().iter().all(|&c| c == 0));
}

#[test]
fn clear_screen_zeroes_framebuffer() {
    let mut cpu = cpu_with(&[0xA3, 0x00, 0xD0, 0x11, 0x00, 0xE0]);
    cpu.write_memory(0x300, &[0xFF]).unwrap();
    run_steps(&mut cpu, 2);
    assert_eq!(cpu.framebuffer()[0], 1);
    cpu.clear_redraw();
    assert!(!cpu.redraw_requested());
    run_steps(&mut cpu, 1);
    assert!(cpu.framebuffer().iter().all(|&c| c == 0));
    assert!(cpu.redraw_requested());
}

#[test]
fn await_key_repeats_until_a_key_is_down() {
    let mut cpu = cpu_with(&[0xF3, 0x0A]);
    for _ in 0..5 {
        run_steps(&mut cpu, 1);
        assert_eq!(cpu.pc(), 0x200);
    }
    cpu.set_key(0xB, true);
    cpu.set_key(0x5, true);
    run_steps(&mut cpu, 1);
    assert_eq!(cpu.pc(), 0x202);
    assert_eq!(cpu.registers[3], 0x5);
}

#[test]
fn key_skips_follow_keypad() {
    let mut cpu = cpu_with(&[0xE0, 0x9E, 0xE0, 0xA1, 0, 0, 0xE0, 0x9E]);
    cpu.registers[0] = 7;
    run_steps(&mut cpu, 1);
    assert_eq!(cpu.pc(), 0x202);
    run_steps(&mut cpu, 1);
    assert_eq!(cpu.pc(), 0x206);
    cpu.set_key(7, true);
    run_steps(&mut cpu, 1);
    assert_eq!(cpu.pc(), 0x20A);
}

#[test]
fn key_skip_with_key_index_past_keypad_faults() {
    let mut cpu = cpu_with(&[0xE0, 0x9E]);
    cpu.registers[0] = 16;
    assert_eq!(cpu.step_with(0), Err(Fault::OutOfBounds));
    assert_eq!(cpu.pc(), 0x200);
}

#[test]
fn bcd_store_of_255() {
    let mut cpu = cpu_with(&[0x60, 0xFF, 0xA3, 0x00, 0xF0, 0x33]);
    run_steps(&mut cpu, 3);
    assert_eq!(cpu.memory_at(0x300), 2);
    assert_eq!(cpu.memory_at(0x301), 5);
    assert_eq!(cpu.memory_at(0x302), 5);
}

#[test]
fn bcd_store_of_small_values() {
    let mut cpu = cpu_with(&[0x60, 7, 0xA3, 0x00, 0xF0, 0x33]);
    run_steps(&mut cpu, 3);
    assert_eq!(cpu.memory_at(0x300), 0);
    assert_eq!(cpu.memory_at(0x301), 0);
    assert_eq!(cpu.memory_at(0x302), 7);
}

#[test]
fn bcd_store_past_memory_end_faults() {
    let mut cpu = cpu_with(&[0xAF, 0xFE, 0xF0, 0x33]);
    run_steps(&mut cpu, 1);
    assert_eq!(cpu.step_with(0), Err(Fault::OutOfBounds));
    assert_eq!(cpu.pc(), 0x202);
    assert_eq!(cpu.memory_at(0xFFE), 0);
}

#[test]
fn register_dump_and_load_are_inclusive() {
    // I = 0x300; dump V0..=V2; clear V0..V3; load V0..=V2
    let mut cpu = cpu_with(&[0xA3, 0x00, 0xF2, 0x55, 0x60, 0, 0x61, 0, 0x62, 0, 0x63, 0, 0xF2, 0x65]);
    cpu.registers[0] = 1;
    cpu.registers[1] = 2;
    cpu.registers[2] = 3;
    cpu.registers[3] = 4;
    run_steps(&mut cpu, 2);
    assert_eq!(cpu.memory_at(0x300), 1);
    assert_eq!(cpu.memory_at(0x302), 3);
    assert_eq!(cpu.memory_at(0x303), 0);
    run_steps(&mut cpu, 5);
    assert_eq!(cpu.registers[0], 1);
    assert_eq!(cpu.registers[1], 2);
    assert_eq!(cpu.registers[2], 3);
    assert_eq!(cpu.registers[3], 0);
}

#[test]
fn register_dump_past_memory_end_faults() {
    let mut cpu = cpu_with(&[0xAF, 0xFE, 0xF2, 0x55]);
    run_steps(&mut cpu, 1);
    assert_eq!(cpu.step_with(0), Err(Fault::OutOfBounds));
    let mut cpu = cpu_with(&[0xAF, 0xFE, 0xF2, 0x65]);
    run_steps(&mut cpu, 1);
    assert_eq!(cpu.step_with(0), Err(Fault::OutOfBounds));
}

#[test]
fn index_instructions() {
    // V0 = 0xA; I = digit glyph; V1 = 0x20; I += V1
    let mut cpu = cpu_with(&[0x60, 0x0A, 0xF0, 0x29, 0x61, 0x20, 0xF1, 0x1E]);
    run_steps(&mut cpu, 2);
    assert_eq!(cpu.index(), 0x50 + 50);
    run_steps(&mut cpu, 2);
    assert_eq!(cpu.index(), 0x50 + 50 + 0x20);
}

#[test]
fn add_index_past_memory_end_faults() {
    let mut cpu = cpu_with(&[0xAF, 0xFF, 0x60, 0x01, 0xF0, 0x1E]);
    run_steps(&mut cpu, 2);
    assert_eq!(cpu.step_with(0), Err(Fault::OutOfBounds));
    assert_eq!(cpu.index(), 0xFFF);
}

#[test]
fn timers_count_down_to_zero() {
    let mut cpu = cpu_with(&[0x60, 0x02, 0xF0, 0x15, 0xF0, 0x18, 0xF1, 0x07]);
    run_steps(&mut cpu, 3);
    assert_eq!(cpu.delay_timer(), 2);
    assert_eq!(cpu.sound_timer(), 2);
    cpu.tick_timers();
    run_steps(&mut cpu, 1);
    assert_eq!(cpu.registers[1], 1);
    cpu.tick_timers();
    cpu.tick_timers();
    assert_eq!(cpu.delay_timer(), 0);
    assert_eq!(cpu.sound_timer(), 0);
}

#[test]
fn random_instruction_masks_the_byte() {
    let mut cpu = cpu_with(&[0xC0, 0xF0]);
    assert_eq!(cpu.step_with(0xAB), Ok(Status::Running));
    assert_eq!(cpu.registers[0], 0xA0);
    let mut cpu = cpu_with(&[0xC0, 0x0F, 0xC1, 0x00]);
    assert_eq!(cpu.step(), Ok(Status::Running));
    assert!(cpu.registers[0] <= 0x0F);
    assert_eq!(cpu.step(), Ok(Status::Running));
    assert_eq!(cpu.registers[1], 0);
}

#[test]
fn stack_overflow_on_seventeenth_call() {
    let mut cpu = cpu_with(&[0x22, 0x00]);
    run_steps(&mut cpu, 16);
    assert_eq!(cpu.stack_pointer(), 16);
    assert_eq!(cpu.step_with(0), Err(Fault::StackOverflow));
    assert_eq!(cpu.stack_pointer(), 16);
    assert_eq!(cpu.pc(), 0x200);
}

#[test]
fn stack_underflow_on_return_with_empty_stack() {
    let mut cpu = cpu_with(&[0x00, 0xEE]);
    assert_eq!(cpu.step_with(0), Err(Fault::StackUnderflow));
    assert_eq!(cpu.pc(), 0x200);
}

#[test]
fn unimplemented_opcode_faults() {
    let mut cpu = cpu_with(&[0x80, 0x08]);
    assert_eq!(cpu.step_with(0), Err(Fault::UnimplementedInstruction { opcode: 0x8008 }));
    assert_eq!(cpu.run(3), Err(Fault::UnimplementedInstruction { opcode: 0x8008 }));
}

#[test]
fn fetch_past_memory_end_faults() {
    let mut cpu = CPU::new();
    cpu.set_pc(0xFFF);
    assert_eq!(cpu.step_with(0), Err(Fault::OutOfBounds));
    cpu.set_pc(0xFFE);
    assert_eq!(cpu.step_with(0), Ok(Status::Halted));
}

#[test]
fn draw_past_memory_end_faults() {
    let mut cpu = cpu_with(&[0xAF, 0xFE, 0xD0, 0x03]);
    run_steps(&mut cpu, 1);
    assert_eq!(cpu.step_with(0), Err(Fault::OutOfBounds));
    assert!(!cpu.redraw_requested());
}

#[test]
fn execute_runs_one_instruction() {
    let mut cpu = CPU::new();
    assert_eq!(cpu.execute(Instr::LoadImm { x: 4, kk: 9 }, 0), Ok(()));
    assert_eq!(cpu.registers[4], 9);
    assert_eq!(cpu.execute(Instr::Return, 0), Err(Fault::StackUnderflow));
    assert_eq!(cpu.pc(), 0x200);
}
