use std::sync::mpsc::channel;

use chip8::Chip8;
use chip8::Chip8Error;
use chip8::DrawInstruction;
use chip8::InputInstruction;
use chip8::InputKey;
use chip8::VRegister;

fn build_chip() -> Chip8 {
    let (tx, _) = channel();
    let (_, rx) = channel();

    Chip8::new(tx, rx)
}

#[test]
fn test_load_index() {
    let mut chip8 = build_chip();
    chip8.load(&[0xA1, 0x23]);
    chip8.run().unwrap();
    assert_eq!(chip8.index, 0x0123);
}

#[test]
fn test_load_binary() {
    let mut chip8 = build_chip();
    chip8.v_registers.set(VRegister::V2, 234);
    chip8.load(&[0xA0, 0xFB, 0xF2, 0x33]);
    chip8.run().unwrap();
    assert_eq!(chip8.memory.get(0x0FB), 2);
    assert_eq!(chip8.memory.get(0x0FC), 3);
    assert_eq!(chip8.memory.get(0x0FD), 4);
}

#[test]
fn test_fill_registers() {
    let mut chip8 = build_chip();
    chip8.index = 0x300;
    chip8.memory.set(0x300, 12);
    chip8.memory.set(0x301, 34);
    chip8.memory.set(0x302, 56);
    chip8.memory.set(0x303, 78);

    chip8.load(&[0xF2, 0x65]);
    chip8.run().unwrap();

    assert_eq!(chip8.index, 0x303);
    assert_eq!(chip8.v_registers.get(VRegister::V0), 12);
    assert_eq!(chip8.v_registers.get(VRegister::V1), 34);
    assert_eq!(chip8.v_registers.get(VRegister::V2), 56);
    assert_eq!(chip8.v_registers.get(VRegister::V3), 0);
}

#[test]
fn test_load_character() {
    let mut chip8 = build_chip();
    chip8.v_registers.set(VRegister::V2, 0xB);
    chip8.load(&[0xF2, 0x29]);
    chip8.run().unwrap();
    // This test is tightly coupled to the memory addresses currently in use for the font
    assert_eq!(chip8.index, 55);
}

#[test]
fn test_set_register() {
    let mut chip8 = build_chip();
    chip8.load(&[0x62, 0x29]);
    chip8.run().unwrap();
    assert_eq!(chip8.v_registers.get(VRegister::V2), 0x29);
}

#[test]
fn random_value_honors_mask() {
    let mut chip8 = build_chip();
    chip8.load(&[0xC2, 0x0F]);
    chip8.run().unwrap();
    assert_eq!(chip8.v_registers.get(VRegister::V2) & 0xF0, 0);
}

#[test]
fn halt_sentinel_stops_the_run() {
    let mut chip8 = build_chip();
    chip8.run().unwrap();
    // The halting fetch still consumed the two sentinel bytes.
    assert_eq!(chip8.program_counter, 0x202);
    assert_eq!(chip8.index, 0);
}

#[test]
fn jump_moves_the_program_counter() {
    let mut chip8 = build_chip();
    // Jump over an instruction that would set V0.
    chip8.load(&[0x12, 0x04, 0x60, 0xAA, 0x61, 0xBB]);
    chip8.run().unwrap();
    assert_eq!(chip8.v_registers.get(VRegister::V0), 0);
    assert_eq!(chip8.v_registers.get(VRegister::V1), 0xBB);
}

#[test]
fn wait_for_key_consults_the_supplied_key() {
    let mut chip8 = build_chip();
    chip8.load(&[0xF2, 0x0A]);
    let consumed = chip8.run_instruction(Some(InputKey::Key7)).unwrap();
    assert!(consumed);
    assert_eq!(chip8.v_registers.get(VRegister::V2), 0x7);
}

#[test]
fn wait_for_key_receives_from_the_channel() {
    let (display_tx, _display_rx) = channel();
    let (input_tx, input_rx) = channel();
    let mut chip8 = Chip8::new(display_tx, input_rx);
    chip8.load(&[0xF2, 0x0A]);
    input_tx.send(InputInstruction::new(InputKey::KeyA)).unwrap();
    let consumed = chip8.run_instruction(None).unwrap();
    assert!(consumed);
    assert_eq!(chip8.v_registers.get(VRegister::V2), 0xA);
}

#[test]
fn wait_for_key_halts_when_the_channel_is_closed() {
    let mut chip8 = build_chip();
    chip8.load(&[0xF2, 0x0A]);
    let consumed = chip8.run_instruction(None).unwrap();
    assert!(!consumed);
}

#[test]
fn draw_sets_pixels_and_publishes_a_snapshot() {
    let (display_tx, display_rx) = channel();
    let (_input_tx, input_rx) = channel();
    let mut chip8 = Chip8::new(display_tx, input_rx);
    // Point the index at the font glyph for 0 and draw its five rows at (0, 0).
    chip8.load(&[0xA0, 0x00, 0xD0, 0x15]);
    chip8.run().unwrap();

    assert_eq!(chip8.frame_buffer().rows()[0], (0b0110_0000u64) << 56);
    assert_eq!(chip8.frame_buffer().rows()[1], (0b1001_0000u64) << 56);
    assert_eq!(chip8.v_registers.get(VRegister::VF), 0);

    let snapshot: DrawInstruction = display_rx.try_recv().unwrap();
    assert_eq!(snapshot.buffer(), chip8.frame_buffer().rows());
}

#[test]
fn draw_reports_collision_in_vf() {
    let (display_tx, _display_rx) = channel();
    let (_input_tx, input_rx) = channel();
    let mut chip8 = Chip8::new(display_tx, input_rx);
    // Draw the same glyph twice at the same origin: the second draw clears
    // every pixel the first one set.
    chip8.load(&[0xA0, 0x00, 0xD0, 0x15, 0xD0, 0x15]);
    chip8.run().unwrap();
    assert_eq!(chip8.v_registers.get(VRegister::VF), 1);
    assert_eq!(chip8.frame_buffer().rows()[0], 0);
}

#[test]
fn invalid_opcode_surfaces_bytes_and_address() {
    let mut chip8 = build_chip();
    chip8.load(&[0x8F, 0x12]);
    let error = chip8.run().unwrap_err();
    assert_eq!(
        error,
        Chip8Error::InvalidOpCode {
            program_counter: 0x200,
            byte0: 0x8F,
            byte1: 0x12
        }
    );
}

#[test]
fn fetch_past_memory_end_is_an_error() {
    let mut chip8 = build_chip();
    chip8.load(&[0x1F, 0xFF]);
    let error = chip8.run().unwrap_err();
    assert_eq!(
        error,
        Chip8Error::AddressOutOfRange {
            program_counter: 0xFFF,
            address: 0xFFF
        }
    );
}

#[test]
fn load_decimal_past_memory_end_is_an_error() {
    let mut chip8 = build_chip();
    chip8.load(&[0xAF, 0xFE, 0xF2, 0x33]);
    let error = chip8.run().unwrap_err();
    assert_eq!(
        error,
        Chip8Error::AddressOutOfRange {
            program_counter: 0x202,
            address: 0xFFE
        }
    );
}

#[test]
fn fill_past_memory_end_is_an_error() {
    let mut chip8 = build_chip();
    chip8.index = 0x0FFF;
    chip8.load(&[0xF5, 0x65]);
    let error = chip8.run().unwrap_err();
    assert_eq!(
        error,
        Chip8Error::AddressOutOfRange {
            program_counter: 0x200,
            address: 0xFFF
        }
    );
}

#[test]
fn draw_past_memory_end_is_an_error() {
    let mut chip8 = build_chip();
    chip8.load(&[0xAF, 0xFF, 0xD0, 0x15]);
    let error = chip8.run().unwrap_err();
    assert_eq!(
        error,
        Chip8Error::AddressOutOfRange {
            program_counter: 0x202,
            address: 0xFFF
        }
    );
}

#[test]
fn runs_without_random_input_are_deterministic() {
    let program = [0x6A, 0x07, 0xA0, 0x23, 0xF2, 0x65, 0x62, 0x29, 0xF2, 0x33];
    let mut first = build_chip();
    first.load(&program);
    first.run().unwrap();
    let mut second = build_chip();
    second.load(&program);
    second.run().unwrap();

    assert_eq!(first.program_counter, second.program_counter);
    assert_eq!(first.index, second.index);
    for nibble in 0..=0xF {
        let register = match nibble {
            0x0 => VRegister::V0,
            0x1 => VRegister::V1,
            0x2 => VRegister::V2,
            0x3 => VRegister::V3,
            0x4 => VRegister::V4,
            0x5 => VRegister::V5,
            0x6 => VRegister::V6,
            0x7 => VRegister::V7,
            0x8 => VRegister::V8,
            0x9 => VRegister::V9,
            0xA => VRegister::VA,
            0xB => VRegister::VB,
            0xC => VRegister::VC,
            0xD => VRegister::VD,
            0xE => VRegister::VE,
            _ => VRegister::VF,
        };
        assert_eq!(
            first.v_registers.get(register),
            second.v_registers.get(register)
        );
    }
}

#[test]
fn memory_is_seeded_with_the_font() {
    let chip8 = build_chip();
    // First row of glyph 0 and last row of glyph F, then empty space.
    assert_eq!(chip8.memory.get(0), 0b0110_0000);
    assert_eq!(chip8.memory.get(79), 0b1000_0000);
    assert_eq!(chip8.memory.get(80), 0);
    assert_eq!(chip8.program_counter, 0x200);
    assert_eq!(chip8.index, 0);
}

#[test]
fn load_writes_from_the_program_base() {
    let mut chip8 = build_chip();
    chip8.load(&[0xAA, 0xBB]);
    assert_eq!(chip8.memory.get(0x200), 0xAA);
    assert_eq!(chip8.memory.get(0x201), 0xBB);
    assert_eq!(chip8.memory.get(0x202), 0);
    assert_eq!(chip8.memory.get(0x1FF), 0);
}

#[test]
fn engine_reports_screen_dimensions() {
    let chip8 = build_chip();
    assert_eq!(chip8.get_screen_width(), 64);
    assert_eq!(chip8.get_screen_height(), 32);
}

#[test]
fn input_key_values_cover_the_16_key_set() {
    assert_eq!(InputKey::Key0.value(), 0x0);
    assert_eq!(InputKey::Key9.value(), 0x9);
    assert_eq!(InputKey::KeyA.value(), 0xA);
    assert_eq!(InputKey::KeyF.value(), 0xF);
}

#[test]
fn input_instruction_round_trips_its_key() {
    let instruction = InputInstruction::new(InputKey::KeyC);
    assert_eq!(instruction.key(), InputKey::KeyC);
}

#[test]
fn draw_instruction_owns_its_rows() {
    let rows = vec![0u64; 32];
    let instruction = DrawInstruction::new(rows.clone());
    assert_eq!(instruction.buffer(), &rows);
}
