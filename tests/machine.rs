use chip8::{Chip8, Fault, Instruction, decode, key_for_char};

fn machine(program: &[u16]) -> Chip8 {
    let mut image = Vec::new();
    for w in program {
        image.push((w >> 8) as u8);
        image.push((w & 0xFF) as u8);
    }
    Chip8::new(&image).unwrap()
}

fn run(m: &mut Chip8, steps: usize) {
    for _ in 0..steps {
        m.emulate_cycle_with(0).unwrap();
    }
}

#[test]
fn add_registers_with_carry() {
    let mut m = machine(&[0x60FA, 0x610A, 0x8014]);
    run(&mut m, 3);
    assert_eq!(m.register(0), 4);
    assert_eq!(m.register(0xF), 1);
}

#[test]
fn add_registers_without_carry() {
    let mut m = machine(&[0x6005, 0x610A, 0x8014]);
    run(&mut m, 3);
    assert_eq!(m.register(0), 15);
    assert_eq!(m.register(0xF), 0);
}

#[test]
fn add_registers_into_flag_keeps_carry() {
    let mut m = machine(&[0x6FFA, 0x610A, 0x8F14]);
    run(&mut m, 3);
    assert_eq!(m.register(0xF), 1);
}

#[test]
fn subtract_with_borrow() {
    let mut m = machine(&[0x6005, 0x610A, 0x8015]);
    run(&mut m, 3);
    assert_eq!(m.register(0), 251);
    assert_eq!(m.register(0xF), 0);
}

#[test]
fn subtract_equal_values_has_no_borrow() {
    let mut m = machine(&[0x6007, 0x6107, 0x8015]);
    run(&mut m, 3);
    assert_eq!(m.register(0), 0);
    assert_eq!(m.register(0xF), 1);
}

#[test]
fn subtract_reverse() {
    let mut m = machine(&[0x600A, 0x6103, 0x8017]);
    run(&mut m, 3);
    assert_eq!(m.register(0), 249);
    assert_eq!(m.register(0xF), 0);
}

#[test]
fn shift_right_and_left() {
    let mut m = machine(&[0x6005, 0x8006]);
    run(&mut m, 2);
    assert_eq!(m.register(0), 2);
    assert_eq!(m.register(0xF), 1);
    let mut m = machine(&[0x6081, 0x800E]);
    run(&mut m, 2);
    assert_eq!(m.register(0), 2);
    assert_eq!(m.register(0xF), 1);
    let mut m = machine(&[0x6041, 0x800E]);
    run(&mut m, 2);
    assert_eq!(m.register(0), 0x82);
    assert_eq!(m.register(0xF), 0);
}

#[test]
fn bitwise_operations() {
    let mut m = machine(&[0x600C, 0x610A, 0x8011, 0x620C, 0x8212, 0x630C, 0x8313, 0x8410]);
    run(&mut m, 8);
    assert_eq!(m.register(0), 0x0E);
    assert_eq!(m.register(2), 0x08);
    assert_eq!(m.register(3), 0x06);
    assert_eq!(m.register(4), 0x0A);
}

#[test]
fn add_byte_wraps_without_flag() {
    let mut m = machine(&[0x60FF, 0x7002]);
    run(&mut m, 2);
    assert_eq!(m.register(0), 1);
    assert_eq!(m.register(0xF), 0);
}

#[test]
fn jump_lands_on_target() {
    let mut m = machine(&[0x1234]);
    run(&mut m, 1);
    assert_eq!(m.program_counter(), 0x234);
    let mut m = machine(&[0x1000]);
    run(&mut m, 1);
    assert_eq!(m.program_counter(), 0);
}

#[test]
fn jump_with_offset() {
    let mut m = machine(&[0x6010, 0xB300]);
    run(&mut m, 2);
    assert_eq!(m.program_counter(), 0x310);
}

#[test]
fn call_and_return() {
    let mut m = machine(&[0x2206, 0x0000, 0x0000, 0x00EE]);
    run(&mut m, 1);
    assert_eq!(m.program_counter(), 0x206);
    assert_eq!(m.stack_depth(), 1);
    run(&mut m, 1);
    assert_eq!(m.program_counter(), 0x202);
    assert_eq!(m.stack_depth(), 0);
}

#[test]
fn return_with_empty_stack_faults() {
    let mut m = machine(&[0x00EE]);
    assert_eq!(m.emulate_cycle_with(0), Err(Fault::StackUnderflow));
    assert_eq!(m.program_counter(), 0x200);
}

#[test]
fn call_with_full_stack_faults() {
    let mut m = machine(&[0x2200]);
    run(&mut m, 16);
    assert_eq!(m.stack_depth(), 16);
    assert_eq!(m.emulate_cycle_with(0), Err(Fault::StackOverflow));
    assert_eq!(m.stack_depth(), 16);
}

#[test]
fn skip_equal_byte() {
    let mut m = machine(&[0x6005, 0x3005]);
    run(&mut m, 2);
    assert_eq!(m.program_counter(), 0x206);
    let mut m = machine(&[0x6005, 0x3006]);
    run(&mut m, 2);
    assert_eq!(m.program_counter(), 0x204);
}

#[test]
fn skip_not_equal_byte() {
    let mut m = machine(&[0x6005, 0x4006]);
    run(&mut m, 2);
    assert_eq!(m.program_counter(), 0x206);
}

#[test]
fn skip_on_registers() {
    let mut m = machine(&[0x6005, 0x6105, 0x5010]);
    run(&mut m, 3);
    assert_eq!(m.program_counter(), 0x208);
    let mut m = machine(&[0x6005, 0x6105, 0x9010]);
    run(&mut m, 3);
    assert_eq!(m.program_counter(), 0x206);
}

#[test]
fn index_instructions() {
    let mut m = machine(&[0xA123, 0x6010, 0xF01E]);
    run(&mut m, 3);
    assert_eq!(m.index_register(), 0x133);
    let mut m = machine(&[0x600A, 0xF029]);
    run(&mut m, 2);
    assert_eq!(m.index_register(), 0x82);
}

#[test]
fn bcd_of_255() {
    let mut m = machine(&[0x60FF, 0xA300, 0xF033]);
    run(&mut m, 3);
    assert_eq!(m.memory_at(0x300), 2);
    assert_eq!(m.memory_at(0x301), 5);
    assert_eq!(m.memory_at(0x302), 5);
}

#[test]
fn bcd_of_0() {
    let mut m = machine(&[0x6000, 0xA200, 0xF033]);
    run(&mut m, 3);
    assert_eq!(m.memory_at(0x200), 0);
    assert_eq!(m.memory_at(0x201), 0);
    assert_eq!(m.memory_at(0x202), 0);
}

#[test]
fn bcd_past_memory_end_faults() {
    let mut m = machine(&[0xAFFE, 0xF033]);
    run(&mut m, 1);
    assert_eq!(m.emulate_cycle_with(0), Err(Fault::AddressOutOfRange));
}

#[test]
fn store_then_load_registers() {
    let mut m = machine(&[0x6011, 0x6122, 0x6233, 0x6344, 0xA300, 0xF355, 0x6000, 0x6100, 0x6200, 0x6300, 0xF365]);
    run(&mut m, 6);
    assert_eq!(m.memory_at(0x300), 0x11);
    assert_eq!(m.memory_at(0x303), 0x44);
    run(&mut m, 5);
    assert_eq!(m.register(0), 0x11);
    assert_eq!(m.register(1), 0x22);
    assert_eq!(m.register(2), 0x33);
    assert_eq!(m.register(3), 0x44);
}

#[test]
fn draw_font_digit_and_erase() {
    let mut m = machine(&[0x6000, 0xF029, 0xD005, 0xD005]);
    run(&mut m, 3);
    let gfx = m.get_gfx();
    assert_eq!(&gfx[0..5], &[1, 1, 1, 1, 0]);
    assert_eq!(&gfx[64..69], &[1, 0, 0, 1, 0]);
    assert_eq!(m.register(0xF), 0);
    run(&mut m, 1);
    assert!(m.get_gfx().iter().all(|&p| p == 0));
    assert_eq!(m.register(0xF), 1);
}

#[test]
fn draw_wraps_at_edges() {
    let mut m = machine(&[0x603E, 0x611F, 0x6200, 0xF229, 0xD012]);
    run(&mut m, 5);
    let gfx = m.get_gfx();
    assert_eq!(gfx[31 * 64 + 62], 1);
    assert_eq!(gfx[31 * 64 + 63], 1);
    assert_eq!(gfx[31 * 64], 1);
    assert_eq!(gfx[31 * 64 + 1], 1);
    assert_eq!(gfx[62], 1);
    assert_eq!(gfx[1], 1);
    assert_eq!(gfx[63], 0);
    assert_eq!(gfx.iter().filter(|&&p| p != 0).count(), 6);
}

#[test]
fn clear_screen() {
    let mut m = machine(&[0xF029, 0xD005, 0x00E0]);
    run(&mut m, 3);
    assert!(m.get_gfx().iter().all(|&p| p == 0));
}

#[test]
fn unknown_instructions_fault() {
    for w in [0x0123u16, 0x8008, 0xE000, 0xF000] {
        let mut m = machine(&[w]);
        assert_eq!(m.emulate_cycle_with(0), Err(Fault::UnknownInstruction(w)));
        assert_eq!(m.program_counter(), 0x200);
    }
}

#[test]
fn program_counter_past_memory_faults() {
    let mut m = machine(&[0x1FFF]);
    run(&mut m, 1);
    assert_eq!(m.emulate_cycle_with(0), Err(Fault::ProgramCounterOutOfRange));
}

#[test]
fn wait_for_key_blocks_until_pressed() {
    let mut m = machine(&[0xF30A, 0x6001]);
    run(&mut m, 1);
    assert_eq!(m.waiting_for_key(), Some(3));
    run(&mut m, 3);
    assert_eq!(m.program_counter(), 0x202);
    assert_eq!(m.register(0), 0);
    m.update_keys('_');
    assert_eq!(m.waiting_for_key(), Some(3));
    m.update_keys('v');
    assert_eq!(m.register(3), 0xF);
    assert_eq!(m.waiting_for_key(), None);
    assert!(m.key_held(0xF));
    run(&mut m, 1);
    assert_eq!(m.register(0), 1);
}

#[test]
fn keypad_update_holds_one_key() {
    let mut m = machine(&[]);
    m.update_keys('q');
    assert!(m.key_held(4));
    m.update_keys('x');
    assert!(m.key_held(0));
    assert!(!m.key_held(4));
    m.update_keys('_');
    for k in 0..16u8 {
        assert!(!m.key_held(k));
    }
}

#[test]
fn skip_on_keys() {
    let mut m = machine(&[0x6004, 0xE09E]);
    m.update_keys('q');
    run(&mut m, 2);
    assert_eq!(m.program_counter(), 0x206);
    let mut m = machine(&[0x6004, 0xE0A1]);
    m.update_keys('q');
    run(&mut m, 2);
    assert_eq!(m.program_counter(), 0x204);
    let mut m = machine(&[0x6020, 0xE0A1]);
    run(&mut m, 2);
    assert_eq!(m.program_counter(), 0x206);
}

#[test]
fn timers_count_down_to_zero() {
    let mut m = machine(&[0x6002, 0xF015, 0xF018, 0xF107]);
    run(&mut m, 3);
    assert_eq!(m.delay_timer(), 2);
    assert_eq!(m.sound_timer(), 2);
    m.decrease_dt();
    run(&mut m, 1);
    assert_eq!(m.register(1), 1);
    m.decrease_dt();
    m.decrease_dt();
    assert_eq!(m.delay_timer(), 0);
    assert_eq!(m.sound_timer(), 0);
}

#[test]
fn random_is_masked() {
    let mut m = machine(&[0xC00F]);
    m.emulate_cycle_with(0xAB).unwrap();
    assert_eq!(m.register(0), 0x0B);
    let mut m = machine(&[0xC000, 0xC10F]);
    m.emulate_cycle().unwrap();
    m.emulate_cycle().unwrap();
    assert_eq!(m.register(0), 0);
    assert!(m.register(1) <= 0x0F);
    assert_eq!(m.program_counter(), 0x204);
}

#[test]
fn image_size_limit() {
    assert_eq!(Chip8::new(&vec![0u8; 3585]).err(), Some(Fault::ImageTooLarge));
    let m = Chip8::new(&vec![7u8; 3584]).unwrap();
    assert_eq!(m.memory_at(0xFFF), 7);
    assert_eq!(m.memory_at(0x1FF), 0);
}

#[test]
fn load_game_replaces_program() {
    let mut m = machine(&[0x1200]);
    assert_eq!(m.load_game(&vec![0u8; 4000]), Err(Fault::ImageTooLarge));
    assert_eq!(m.memory_at(0x200), 0x12);
    assert_eq!(m.load_game(&[0x60, 0x09]), Ok(()));
    run(&mut m, 1);
    assert_eq!(m.register(0), 9);
}

#[test]
fn font_table_loaded() {
    let m = machine(&[]);
    assert_eq!(m.memory_at(0x50), 0xF0);
    assert_eq!(m.memory_at(0x55), 0x20);
    assert_eq!(m.memory_at(0x9F), 0x80);
    assert_eq!(m.program_counter(), 0x200);
}

#[test]
fn end_to_end_minimal_program() {
    let mut m = machine(&[0x6005, 0x610A, 0x8014, 0xD000]);
    run(&mut m, 3);
    assert_eq!(m.register(0), 15);
    assert_eq!(m.register(0xF), 0);
    assert_eq!(m.program_counter(), 0x200 + 6);
}

#[test]
fn decode_families() {
    assert_eq!(decode(0x00E0), Some(Instruction::ClearScreen));
    assert_eq!(decode(0x8124), Some(Instruction::AddRegs(1, 2)));
    assert_eq!(decode(0x812E), Some(Instruction::ShiftLeft(1)));
    assert_eq!(decode(0x5AB7), Some(Instruction::SkipEqualRegs(0xA, 0xB)));
    assert_eq!(decode(0xD12F), Some(Instruction::Draw(1, 2, 0xF)));
    assert_eq!(decode(0xE59E), Some(Instruction::SkipKeyPressed(5)));
    assert_eq!(decode(0xF765), Some(Instruction::LoadRegs(7)));
    assert_eq!(decode(0xF766), None);
    assert_eq!(decode(0x00EF), None);
}

#[test]
fn keyboard_layout() {
    assert_eq!(key_for_char('1'), Some(1));
    assert_eq!(key_for_char('4'), Some(0xC));
    assert_eq!(key_for_char('x'), Some(0));
    assert_eq!(key_for_char('v'), Some(0xF));
    assert_eq!(key_for_char('z'), None);
}
