use chip8::bitrange::BitRange;
use chip8::cpu::{Fault, CPU};
use chip8::instructions::{first, last, last_three, last_two, second, third, Instruction};
use chip8::FONT4X5;

#[test]
fn decode_is_deterministic_and_total() {
    for w in [0x00e0u16, 0x1123, 0x8894, 0xf965, 0xdead, 0x0000, 0xffff] {
        assert_eq!(Instruction::from_u16(&w), Instruction::from_u16(&w));
    }
    for w in [0x0000u16, 0x00e1, 0x0123, 0x8008, 0x889f, 0xe000, 0xe19f, 0xf000, 0xf166] {
        assert_eq!(Instruction::from_u16(&w), None);
    }
}

#[test]
fn new_loads_font_and_program() {
    let cpu = CPU::new(&vec![0x12, 0x34, 0x56]);
    assert_eq!(&cpu.memory[0..5], &[0xf0, 0x90, 0x90, 0x90, 0xf0]);
    assert_eq!(&cpu.memory[75..80], &[0xf0, 0x80, 0xf0, 0x80, 0x80]);
    assert_eq!(&cpu.memory[0..80], &FONT4X5[..]);
    assert_eq!(cpu.memory[80], 0);
    assert_eq!(&cpu.memory[0x200..0x203], &[0x12, 0x34, 0x56]);
    assert_eq!(cpu.memory[0x203], 0);
    assert_eq!(cpu.pc, 0x200);
    assert_eq!(cpu.memory.len(), 4096);
    assert_eq!(cpu.grid.len(), 64 * 32);
    assert!(cpu.grid.iter().all(|&p| p == 0));
    assert!(cpu.regs.iter().all(|&r| r == 0));
    assert!(cpu.keys.iter().all(|&k| k == 0));
    assert_eq!(cpu.stack.len(), 0);
}

#[test]
fn new_accepts_largest_program() {
    let cpu = CPU::new(&vec![0xab; 4096 - 0x200]);
    assert_eq!(cpu.memory[0x200], 0xab);
    assert_eq!(cpu.memory[0xfff], 0xab);
}

#[test]
fn fetch_is_big_endian_and_bounded() {
    let mut cpu = CPU::new(&vec![0x12, 0x34]);
    assert_eq!(cpu.fetch_opcode(), Ok(0x1234));
    cpu.pc = 4094;
    assert_eq!(cpu.fetch_opcode(), Ok(0x0000));
    cpu.pc = 4095;
    assert_eq!(cpu.fetch_opcode(), Err(Fault::AddressOutOfRange));
    cpu.pc = 4096;
    assert_eq!(cpu.fetch_opcode(), Err(Fault::AddressOutOfRange));
}

#[test]
fn clear_display_is_idempotent() {
    let mut cpu = CPU::new(&vec![]);
    cpu.regs[0] = 0;
    cpu.regs[1] = 0;
    cpu.address = 0;
    let _ = cpu.do_instruction(&Instruction::DrawSprite(0, 1, 5));
    assert!(cpu.grid.iter().any(|&p| p == 1));

    assert_eq!(cpu.do_instruction(&Instruction::ClearDisplay), Ok(()));
    let once = cpu.grid.clone();
    assert!(once.iter().all(|&p| p == 0));
    assert_eq!(cpu.do_instruction(&Instruction::ClearDisplay), Ok(()));
    assert_eq!(cpu.grid, once);
}

#[test]
fn clear_program_end_to_end() {
    let mut cpu = CPU::new(&vec![0x00, 0xe0]);
    let raw = cpu.fetch_opcode().unwrap();
    let instruction = Instruction::from_u16(&raw).unwrap();
    assert_eq!(cpu.do_instruction(&instruction), Ok(()));
    assert_eq!(cpu.pc, 0x202);
    assert!(cpu.grid.iter().all(|&p| p == 0));
}

#[test]
fn wait_for_press_blocks_until_pressed() {
    let mut cpu = CPU::new(&vec![]);
    cpu.regs[0x2] = 0x7;
    for _ in 0..3 {
        assert_eq!(cpu.do_instruction(&Instruction::WaitForPress(0x2)), Ok(()));
        assert_eq!(cpu.pc, 0x200);
    }
    cpu.keys[0x7] = 1;
    assert_eq!(cpu.do_instruction(&Instruction::WaitForPress(0x2)), Ok(()));
    assert_eq!(cpu.pc, 0x202);
    assert_eq!(cpu.regs[0x2], 0x7);
}

#[test]
fn skip_if_pressed_reads_key_state() {
    let mut cpu = CPU::new(&vec![]);
    cpu.regs[0x0] = 0x4;
    let _ = cpu.do_instruction(&Instruction::SkipIfPressed(0x0));
    assert_eq!(cpu.pc, 0x202);
    let _ = cpu.do_instruction(&Instruction::SkipIfNotPressed(0x0));
    assert_eq!(cpu.pc, 0x206);

    cpu.keys[0x4] = 1;
    let _ = cpu.do_instruction(&Instruction::SkipIfPressed(0x0));
    assert_eq!(cpu.pc, 0x20a);
    let _ = cpu.do_instruction(&Instruction::SkipIfNotPressed(0x0));
    assert_eq!(cpu.pc, 0x20c);
}

#[test]
fn skip_if_not_equal_register() {
    let mut cpu = CPU::new(&vec![]);
    cpu.regs[0x1] = 1;
    cpu.regs[0x2] = 2;
    let _ = cpu.do_instruction(&Instruction::SkipIfNotEqualRegister(0x1, 0x2));
    assert_eq!(cpu.pc, 0x204);
    cpu.regs[0x2] = 1;
    let _ = cpu.do_instruction(&Instruction::SkipIfNotEqualRegister(0x1, 0x2));
    assert_eq!(cpu.pc, 0x206);
}

#[test]
fn set_xor_registers() {
    let mut cpu = CPU::new(&vec![]);
    cpu.regs[0x2] = 0b1100;
    cpu.regs[0x3] = 0b1010;
    let _ = cpu.do_instruction(&Instruction::SetXor(0x2, 0x3));
    assert_eq!(cpu.regs[0x2], 0b0110);
    assert_eq!(cpu.regs[0x3], 0b1010);
}

#[test]
fn add_const_wraps() {
    let mut cpu = CPU::new(&vec![]);
    cpu.regs[0x0] = 250;
    cpu.regs[0xf] = 9;
    let _ = cpu.do_instruction(&Instruction::AddConst(0x0, 10));
    assert_eq!(cpu.regs[0x0], 4);
    // AddConst does not touch the flag register.
    assert_eq!(cpu.regs[0xf], 9);
}

#[test]
fn timers_decrement_once_per_execute_and_floor_at_zero() {
    let mut cpu = CPU::new(&vec![]);
    cpu.regs[0x1] = 3;
    assert_eq!(cpu.do_instruction(&Instruction::SetDelay(0x1)), Ok(()));
    assert_eq!(cpu.delay_timer, 3);
    let _ = cpu.do_instruction(&Instruction::LoadDelay(0x0));
    assert_eq!(cpu.regs[0x0], 2);
    let _ = cpu.do_instruction(&Instruction::LoadDelay(0x0));
    assert_eq!(cpu.regs[0x0], 1);
    let _ = cpu.do_instruction(&Instruction::LoadDelay(0x0));
    assert_eq!(cpu.regs[0x0], 0);
    let _ = cpu.do_instruction(&Instruction::LoadDelay(0x0));
    assert_eq!(cpu.regs[0x0], 0);

    cpu.regs[0x2] = 2;
    assert_eq!(cpu.do_instruction(&Instruction::SetSound(0x2)), Ok(()));
    assert_eq!(cpu.sound_timer, 2);
    let _ = cpu.do_instruction(&Instruction::LoadDelay(0x0));
    assert_eq!(cpu.sound_timer, 1);
}

#[test]
fn add_offset_accumulates_and_wraps() {
    let mut cpu = CPU::new(&vec![]);
    cpu.address = 0x300;
    cpu.regs[0x4] = 0x20;
    let _ = cpu.do_instruction(&Instruction::AddOffset(0x4));
    assert_eq!(cpu.address, 0x320);

    cpu.address = 0xffff;
    cpu.regs[0x4] = 2;
    let _ = cpu.do_instruction(&Instruction::AddOffset(0x4));
    assert_eq!(cpu.address, 1);
}

#[test]
fn jump_to_v0_address_adds_register() {
    let mut cpu = CPU::new(&vec![]);
    cpu.regs[0x0] = 5;
    let _ = cpu.do_instruction(&Instruction::JumpToV0Address(0x300));
    assert_eq!(cpu.pc, 0x305);
}

#[test]
fn bitwise_random_masks_result() {
    let mut cpu = CPU::new(&vec![]);
    cpu.regs[0x3] = 0xaa;
    let _ = cpu.do_instruction(&Instruction::BitwiseRandom(0x3, 0x00));
    assert_eq!(cpu.regs[0x3], 0);
    let _ = cpu.do_instruction(&Instruction::BitwiseRandom(0x3, 0x0f));
    assert_eq!(cpu.regs[0x3] & 0xf0, 0);
}

#[test]
fn draw_sprite_draws_font_glyph_and_reports_collision() {
    let mut cpu = CPU::new(&vec![]);
    // Glyph 0 sits at the bottom of memory; its top row is 0xF0.
    cpu.regs[0x0] = 0;
    cpu.regs[0x1] = 0;
    cpu.address = 0;
    cpu.regs[0xf] = 7;
    assert_eq!(cpu.do_instruction(&Instruction::DrawSprite(0x0, 0x1, 5)), Ok(()));
    assert_eq!(&cpu.grid[0..8], &[1, 1, 1, 1, 0, 0, 0, 0]);
    assert_eq!(&cpu.grid[64..72], &[1, 0, 0, 1, 0, 0, 0, 0]);
    assert_eq!(cpu.regs[0xf], 0);

    // Drawing the same glyph again erases it: every pixel collides.
    assert_eq!(cpu.do_instruction(&Instruction::DrawSprite(0x0, 0x1, 5)), Ok(()));
    assert!(cpu.grid.iter().all(|&p| p == 0));
    assert_eq!(cpu.regs[0xf], 1);
}

#[test]
fn draw_sprite_clips_at_right_edge() {
    let mut cpu = CPU::new(&vec![]);
    cpu.memory[0x700] = 0xf0;
    cpu.address = 0x700;
    cpu.regs[0x0] = 62;
    cpu.regs[0x1] = 0;
    assert_eq!(cpu.do_instruction(&Instruction::DrawSprite(0x0, 0x1, 1)), Ok(()));
    assert_eq!(cpu.grid[62], 1);
    assert_eq!(cpu.grid[63], 1);
    // Columns past the right edge are clipped, not wrapped to the next row.
    assert_eq!(cpu.grid[64], 0);
    assert_eq!(cpu.grid[65], 0);
}

#[test]
fn draw_sprite_resets_out_of_range_start_column() {
    let mut cpu = CPU::new(&vec![]);
    cpu.memory[0x700] = 0x80;
    cpu.address = 0x700;
    cpu.regs[0x0] = 70;
    cpu.regs[0x1] = 0;
    assert_eq!(cpu.do_instruction(&Instruction::DrawSprite(0x0, 0x1, 1)), Ok(()));
    assert_eq!(cpu.grid[0], 1);
}

#[test]
fn draw_sprite_clips_at_bottom_edge() {
    let mut cpu = CPU::new(&vec![]);
    cpu.memory[0x700] = 0x80;
    cpu.memory[0x701] = 0x80;
    cpu.address = 0x700;
    cpu.regs[0x0] = 0;
    cpu.regs[0x1] = 31;
    assert_eq!(cpu.do_instruction(&Instruction::DrawSprite(0x0, 0x1, 2)), Ok(()));
    assert_eq!(cpu.grid[31 * 64], 1);
    assert_eq!(cpu.grid.iter().filter(|&&p| p == 1).count(), 1);
}

#[test]
fn register_operand_out_of_range_faults() {
    let mut cpu = CPU::new(&vec![]);
    assert_eq!(
        cpu.do_instruction(&Instruction::LoadConst(16, 1)),
        Err(Fault::RegisterOutOfRange)
    );
    assert_eq!(
        cpu.do_instruction(&Instruction::Add(0, 255)),
        Err(Fault::RegisterOutOfRange)
    );
    // A faulting call still ticks nothing else: the counter stays put.
    assert_eq!(cpu.pc, 0x200);
    assert!(cpu.regs.iter().all(|&r| r == 0));
}

#[test]
fn key_index_out_of_range_faults() {
    let mut cpu = CPU::new(&vec![]);
    cpu.regs[0x0] = 16;
    assert_eq!(
        cpu.do_instruction(&Instruction::SkipIfPressed(0x0)),
        Err(Fault::KeyOutOfRange)
    );
    assert_eq!(
        cpu.do_instruction(&Instruction::WaitForPress(0x0)),
        Err(Fault::KeyOutOfRange)
    );
    assert_eq!(cpu.pc, 0x200);
}

#[test]
fn memory_access_out_of_range_faults() {
    let mut cpu = CPU::new(&vec![]);
    cpu.address = 4094;
    cpu.regs[0x0] = 129;
    assert_eq!(
        cpu.do_instruction(&Instruction::SetBCD(0x0)),
        Err(Fault::AddressOutOfRange)
    );
    assert_eq!(cpu.memory[4094], 0);
    assert_eq!(cpu.pc, 0x200);

    cpu.address = 4081;
    assert_eq!(
        cpu.do_instruction(&Instruction::DumpReg(0xf)),
        Err(Fault::AddressOutOfRange)
    );
    assert_eq!(
        cpu.do_instruction(&Instruction::LoadReg(0xf)),
        Err(Fault::AddressOutOfRange)
    );

    // The last 16 bytes of memory are still fair game.
    cpu.address = 4080;
    assert_eq!(cpu.do_instruction(&Instruction::DumpReg(0xf)), Ok(()));
    assert_eq!(cpu.address, 4096);

    cpu.address = 4095;
    assert_eq!(
        cpu.do_instruction(&Instruction::DrawSprite(0x1, 0x2, 2)),
        Err(Fault::AddressOutOfRange)
    );
}

#[test]
fn empty_stack_return_is_a_no_op() {
    let mut cpu = CPU::new(&vec![]);
    cpu.pc = 0x300;
    assert_eq!(cpu.do_instruction(&Instruction::Return), Ok(()));
    assert_eq!(cpu.pc, 0x300);
    assert_eq!(cpu.do_instruction(&Instruction::Return), Ok(()));
    assert_eq!(cpu.pc, 0x300);
    assert_eq!(cpu.stack.len(), 0);
}

#[test]
fn call_then_return_round_trips() {
    let mut cpu = CPU::new(&vec![]);
    let _ = cpu.do_instruction(&Instruction::CallSubroutine(0x400));
    assert_eq!(cpu.pc, 0x400);
    assert_eq!(cpu.stack, vec![0x200]);
    let _ = cpu.do_instruction(&Instruction::Return);
    assert_eq!(cpu.pc, 0x202);
    assert_eq!(cpu.stack.len(), 0);
}

#[test]
fn opcode_field_extraction() {
    let w = 0xabcd;
    assert_eq!(first(&w), 0xa);
    assert_eq!(second(&w), 0xb);
    assert_eq!(third(&w), 0xc);
    assert_eq!(last(&w), 0xd);
    assert_eq!(last_two(&w), 0xcd);
    assert_eq!(last_three(&w), 0xbcd);
}

#[test]
fn bit_range_extracts_inclusive_runs() {
    let v: u16 = 0b1010_1100_0101_0011;
    assert_eq!(v.range_u8(0..3), 0b0011);
    assert_eq!(v.range_u8(4..7), 0b0101);
    assert_eq!(v.range_u16(0..11), 0b1100_0101_0011);
    assert_eq!(0xf3u8.range_u8(4..6), 0x7);
    assert_eq!(0xf3u8.range_u16(2..5), 0xc);
    assert_eq!(0xdeadbeefu32.range_u16(8..23), 0xadbe);
    assert_eq!(0xdeadbeefu32.range_u8(28..30), 0x5);
}
