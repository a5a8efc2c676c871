use chip8::emulator::Emulator;
use chip8::semantics::CycleEvent;

fn boot(rom: &[u8]) -> Emulator {
    let mut e = Emulator::new();
    e.load_program(&rom.to_vec()).unwrap();
    e
}

fn run(e: &mut Emulator, cycles: usize) {
    for _ in 0..cycles {
        e.cycle().unwrap();
    }
}

#[test]
fn set_register_persists_across_noop() {
    let mut e = boot(&[0x6A, 0x42, 0x00, 0x00]);
    assert_eq!(e.cycle(), Ok(CycleEvent::Executed(0x6A42)));
    assert_eq!(e.get_reg(10), 0x42);
    assert_eq!(e.cycle(), Ok(CycleEvent::Executed(0x0000)));
    assert_eq!(e.get_reg(10), 0x42);
    assert_eq!(e.get_pc(), 516);
}

#[test]
fn add_immediate_saturates() {
    // VF is set beforehand and must stay untouched.
    let mut e = boot(&[0x6F, 0x07, 0x65, 0xFA, 0x75, 0x0A]);
    run(&mut e, 3);
    assert_eq!(e.get_reg(5), 255);
    assert_eq!(e.get_reg(15), 7);
}

#[test]
fn add_immediate_plain() {
    let mut e = boot(&[0x6F, 0x07, 0x65, 0xFA, 0x75, 0x04]);
    run(&mut e, 3);
    assert_eq!(e.get_reg(5), 254);
    assert_eq!(e.get_reg(15), 7);
}

#[test]
fn add_with_carry() {
    let mut e = boot(&[0x61, 0xC8, 0x62, 0x64, 0x81, 0x24]);
    run(&mut e, 3);
    assert_eq!(e.get_reg(1), 44);
    assert_eq!(e.get_reg(15), 1);

    let mut e2 = boot(&[0x61, 0x0A, 0x62, 0x14, 0x81, 0x24]);
    run(&mut e2, 3);
    assert_eq!(e2.get_reg(1), 30);
    assert_eq!(e2.get_reg(15), 0);
}

#[test]
fn sub_with_borrow_saturates() {
    let mut e = boot(&[0x61, 0x0A, 0x62, 0x14, 0x81, 0x25]);
    run(&mut e, 3);
    assert_eq!(e.get_reg(1), 0);
    assert_eq!(e.get_reg(15), 0);

    let mut e2 = boot(&[0x61, 0x14, 0x62, 0x0A, 0x81, 0x25]);
    run(&mut e2, 3);
    assert_eq!(e2.get_reg(1), 10);
    assert_eq!(e2.get_reg(15), 1);
}

#[test]
fn sub_reversed() {
    let mut e = boot(&[0x61, 0x0A, 0x62, 0x14, 0x81, 0x27]);
    run(&mut e, 3);
    assert_eq!(e.get_reg(1), 10);
    assert_eq!(e.get_reg(15), 1);

    let mut e2 = boot(&[0x61, 0x14, 0x62, 0x0A, 0x81, 0x27]);
    run(&mut e2, 3);
    assert_eq!(e2.get_reg(1), 0);
    assert_eq!(e2.get_reg(15), 0);
}

#[test]
fn alu_assign_or_and_xor() {
    let mut e = boot(&[0x61, 0x0C, 0x62, 0x0A, 0x81, 0x21]);
    run(&mut e, 3);
    assert_eq!(e.get_reg(1), 0x0E);

    let mut e2 = boot(&[0x61, 0x0C, 0x62, 0x0A, 0x81, 0x22]);
    run(&mut e2, 3);
    assert_eq!(e2.get_reg(1), 0x08);

    let mut e3 = boot(&[0x61, 0x0C, 0x62, 0x0A, 0x81, 0x23]);
    run(&mut e3, 3);
    assert_eq!(e3.get_reg(1), 0x06);

    let mut e4 = boot(&[0x62, 0x77, 0x81, 0x20]);
    run(&mut e4, 2);
    assert_eq!(e4.get_reg(1), 0x77);
}

#[test]
fn shift_right_flags_low_bit() {
    let mut e = boot(&[0x65, 0x05, 0x85, 0x06]);
    run(&mut e, 2);
    assert_eq!(e.get_reg(5), 2);
    assert_eq!(e.get_reg(15), 1);

    let mut e2 = boot(&[0x65, 0x04, 0x85, 0x06]);
    run(&mut e2, 2);
    assert_eq!(e2.get_reg(5), 2);
    assert_eq!(e2.get_reg(15), 0);
}

#[test]
fn shift_left_takes_vy_and_doubles() {
    let mut e = boot(&[0x66, 0x90, 0x85, 0x6E]);
    run(&mut e, 2);
    assert_eq!(e.get_reg(5), 0x20);
    assert_eq!(e.get_reg(15), 1);

    let mut e2 = boot(&[0x66, 0x21, 0x85, 0x6E]);
    run(&mut e2, 2);
    assert_eq!(e2.get_reg(5), 0x42);
    assert_eq!(e2.get_reg(15), 0);
}

#[test]
fn jump_sets_pc() {
    let mut e = boot(&[0x13, 0x00]);
    assert_eq!(e.cycle(), Ok(CycleEvent::Executed(0x1300)));
    assert_eq!(e.get_pc(), 0x300);
}

#[test]
fn jump_with_offset() {
    let mut e = boot(&[0x60, 0x10, 0xB3, 0x00]);
    run(&mut e, 2);
    assert_eq!(e.get_pc(), 0x310);
}

#[test]
fn skip_if_equal_immediate() {
    let mut e = boot(&[0x65, 0x07, 0x35, 0x07]);
    run(&mut e, 2);
    assert_eq!(e.get_pc(), 518);

    let mut e2 = boot(&[0x65, 0x07, 0x35, 0x08]);
    run(&mut e2, 2);
    assert_eq!(e2.get_pc(), 516);
}

#[test]
fn skip_if_not_equal_immediate() {
    let mut e = boot(&[0x65, 0x07, 0x45, 0x08]);
    run(&mut e, 2);
    assert_eq!(e.get_pc(), 518);

    let mut e2 = boot(&[0x65, 0x07, 0x45, 0x07]);
    run(&mut e2, 2);
    assert_eq!(e2.get_pc(), 516);
}

#[test]
fn skip_on_register_compare() {
    let mut e = boot(&[0x65, 0x07, 0x66, 0x07, 0x55, 0x60]);
    run(&mut e, 3);
    assert_eq!(e.get_pc(), 520);

    let mut e2 = boot(&[0x65, 0x07, 0x66, 0x08, 0x95, 0x60]);
    run(&mut e2, 3);
    assert_eq!(e2.get_pc(), 520);

    let mut e3 = boot(&[0x65, 0x07, 0x66, 0x08, 0x55, 0x60]);
    run(&mut e3, 3);
    assert_eq!(e3.get_pc(), 518);
}

#[test]
fn load_and_add_to_i() {
    let mut e = boot(&[0xA1, 0x23]);
    run(&mut e, 1);
    assert_eq!(e.get_ireg(), 0x123);

    let mut e2 = boot(&[0xA1, 0x00, 0x65, 0x10, 0xF5, 0x1E]);
    run(&mut e2, 3);
    assert_eq!(e2.get_ireg(), 0x110);
}

#[test]
fn font_address() {
    let mut e = boot(&[0x65, 0x0A, 0xF5, 0x29]);
    run(&mut e, 2);
    assert_eq!(e.get_ireg(), 50);
}

#[test]
fn binary_coded_decimal() {
    let mut e = boot(&[0x61, 0x7B, 0xA3, 0x00, 0xF1, 0x33]);
    run(&mut e, 3);
    assert_eq!(e.read_mem(0x300), 1);
    assert_eq!(e.read_mem(0x301), 2);
    assert_eq!(e.read_mem(0x302), 3);
}

#[test]
fn register_dump_and_load() {
    let mut e = boot(&[
        0x60, 0x01, 0x61, 0x02, 0x62, 0x03, 0xA3, 0x00, 0xF2, 0x55, 0x60, 0x00, 0x61, 0x00, 0x62,
        0x00, 0xA3, 0x00, 0xF2, 0x65,
    ]);
    run(&mut e, 5);
    assert_eq!(e.read_mem(0x300), 1);
    assert_eq!(e.read_mem(0x301), 2);
    assert_eq!(e.read_mem(0x302), 3);
    assert_eq!(e.get_ireg(), 0x303);
    run(&mut e, 5);
    assert_eq!(e.get_reg(0), 1);
    assert_eq!(e.get_reg(1), 2);
    assert_eq!(e.get_reg(2), 3);
    assert_eq!(e.get_ireg(), 0x303);
}

#[test]
fn timers_set_read_and_tick() {
    let mut e = boot(&[0x65, 0x05, 0xF5, 0x15, 0xF3, 0x07, 0x66, 0x02, 0xF6, 0x18]);
    run(&mut e, 2);
    // The delay timer was set to 5 and already ticked once this cycle.
    assert_eq!(e.get_delay_timer(), 4);
    run(&mut e, 1);
    assert_eq!(e.get_reg(3), 4);
    assert_eq!(e.get_delay_timer(), 3);
    run(&mut e, 2);
    assert_eq!(e.get_sound_timer(), 1);
    assert_eq!(e.get_delay_timer(), 1);
}

#[test]
fn random_is_masked() {
    let mut e = boot(&[0xC5, 0x0F]);
    run(&mut e, 1);
    assert!(e.get_reg(5) <= 0x0F);

    let mut e2 = boot(&[0xC5, 0x00]);
    run(&mut e2, 1);
    assert_eq!(e2.get_reg(5), 0);
}

#[test]
fn invalid_opcodes_are_reported_and_skipped() {
    let mut e = boot(&[0x80, 0x0F, 0xE5, 0x30, 0xF5, 0xFF]);
    assert_eq!(e.cycle(), Ok(CycleEvent::InvalidOpcode(0x800F)));
    assert_eq!(e.get_pc(), 514);
    assert_eq!(e.cycle(), Ok(CycleEvent::InvalidOpcode(0xE530)));
    assert_eq!(e.cycle(), Ok(CycleEvent::InvalidOpcode(0xF5FF)));
    assert_eq!(e.get_pc(), 518);
}

#[test]
fn machine_code_call_is_ignored() {
    let mut e = boot(&[0x02, 0x34]);
    assert_eq!(e.cycle(), Ok(CycleEvent::Executed(0x0234)));
    assert_eq!(e.get_pc(), 514);
    assert_eq!(e.stack_depth(), 0);
}
