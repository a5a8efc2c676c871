use chip8::emulator::Emulator;
use chip8::semantics::EmuError;

const FONT: [u8; 80] = [
    0xF0, 0x90, 0x90, 0x90, 0xF0, 0x20, 0x60, 0x20, 0x20, 0x70, 0xF0, 0x10, 0xF0, 0x80, 0xF0,
    0xF0, 0x10, 0xF0, 0x10, 0xF0, 0x90, 0x90, 0xF0, 0x10, 0x10, 0xF0, 0x80, 0xF0, 0x10, 0xF0,
    0xF0, 0x80, 0xF0, 0x90, 0xF0, 0xF0, 0x10, 0x20, 0x40, 0x40, 0xF0, 0x90, 0xF0, 0x90, 0xF0,
    0xF0, 0x90, 0xF0, 0x10, 0xF0, 0xF0, 0x90, 0xF0, 0x90, 0x90, 0xE0, 0x90, 0xE0, 0x90, 0xE0,
    0xF0, 0x80, 0x80, 0x80, 0xF0, 0xE0, 0x90, 0x90, 0x90, 0xE0, 0xF0, 0x80, 0xF0, 0x80, 0xF0,
    0xF0, 0x80, 0xF0, 0x80, 0x80,
];

fn boot(rom: &[u8]) -> Emulator {
    let mut e = Emulator::new();
    e.load_program(&rom.to_vec()).unwrap();
    e
}

#[test]
fn new_machine_initial_state() {
    let e = Emulator::new();
    assert_eq!(e.get_pc(), 512);
    assert_eq!(e.get_ireg(), 0);
    assert_eq!(e.get_delay_timer(), 0);
    assert_eq!(e.get_sound_timer(), 0);
    assert_eq!(e.stack_depth(), 0);
    for r in 0..16 {
        assert_eq!(e.get_reg(r), 0);
    }
    let screen = e.get_screen();
    assert_eq!(screen.len(), 2048);
    for p in 0..2048 {
        assert_eq!(screen[p], 0);
    }
}

#[test]
fn font_preloaded() {
    let e = Emulator::new();
    for a in 0..80 {
        assert_eq!(e.get_reg(0), 0);
        assert_eq!(e.read_mem(a), FONT[a]);
    }
    for a in 80..512 {
        assert_eq!(e.read_mem(a), 0);
    }
}

#[test]
fn load_roundtrip() {
    let rom = [1u8, 2, 3, 250];
    let e = boot(&rom);
    for (k, b) in rom.iter().enumerate() {
        assert_eq!(e.read_mem(512 + k), *b);
    }
    assert_eq!(e.read_mem(516), 0);
    for a in 0..80 {
        assert_eq!(e.read_mem(a), FONT[a]);
    }
}

#[test]
fn load_largest_image() {
    let rom = vec![0xABu8; 3584];
    let mut e = Emulator::new();
    assert_eq!(e.load_program(&rom), Ok(()));
    assert_eq!(e.read_mem(4095), 0xAB);
    for a in 0..80 {
        assert_eq!(e.read_mem(a), FONT[a]);
    }
}

#[test]
fn load_too_large_is_fatal() {
    let rom = vec![0xABu8; 3585];
    let mut e = Emulator::new();
    assert_eq!(e.load_program(&rom), Err(EmuError::ProgramTooLarge));
    assert_eq!(e.read_mem(512), 0);
    assert_eq!(e.read_mem(4095), 0);
}

#[test]
fn set_key_invalid_index_is_fatal() {
    let mut e = Emulator::new();
    assert_eq!(e.set_key_state(16, true), Err(EmuError::InvalidKeyIndex));
    assert_eq!(e.set_key_state(15, true), Ok(()));
    assert_eq!(e.set_key_state(0, false), Ok(()));
}

#[test]
fn reset_keeps_memory_only() {
    let mut e = boot(&[0x6A, 0x42]);
    e.cycle().unwrap();
    assert_eq!(e.get_reg(10), 0x42);
    assert_eq!(e.get_pc(), 514);
    e.reset();
    assert_eq!(e.get_pc(), 512);
    assert_eq!(e.get_reg(10), 0);
    assert_eq!(e.stack_depth(), 0);
    assert_eq!(e.read_mem(512), 0x6A);
    assert_eq!(e.read_mem(513), 0x42);
}
