use chip8::FrameBuffer;

#[test]
fn draw_single_byte_sprite() {
    let mut buffer = FrameBuffer::default();
    buffer.draw((1, 2), &[0b10011001]);
    assert_eq!(
        buffer.rows()[2],
        0b0100110010000000000000000000000000000000000000000000000000000000
    );
}

#[test]
fn draw_multiple_byte_sprite() {
    let mut buffer = FrameBuffer::default();
    buffer.draw((1, 2), &[0b10011001, 0b01100110]);
    assert_eq!(
        &buffer.rows()[2..=3],
        &[
            0b0100110010000000000000000000000000000000000000000000000000000000,
            0b0011001100000000000000000000000000000000000000000000000000000000,
        ]
    );
}

#[test]
fn draw_byte_wrapping_around_horizontally() {
    let mut buffer = FrameBuffer::default();
    buffer.draw((60, 2), &[0b10011001]);
    assert_eq!(
        buffer.rows()[2],
        0b1001000000000000000000000000000000000000000000000000000000001001,
    );
}

#[test]
fn draw_sprite_wrapping_around_vertically() {
    let mut buffer = FrameBuffer::default();
    buffer.draw((0, 31), &[0b10011001, 0b01100110]);
    assert_eq!(
        buffer.rows()[31],
        0b1001100100000000000000000000000000000000000000000000000000000000,
    );
    assert_eq!(
        buffer.rows()[0],
        0b0110011000000000000000000000000000000000000000000000000000000000,
    );
}

#[test]
fn returns_false_if_no_bit_was_flipped_off() {
    let mut buffer = FrameBuffer::default();
    assert!(!buffer.draw((0, 0), &[0b11111111]));
}

#[test]
fn returns_true_if_some_bit_was_flipped_off() {
    let mut buffer = FrameBuffer::default();
    buffer.draw((0, 0), &[0b11111111]);
    assert!(buffer.draw((0, 0), &[0b11111110]));
}

#[test]
fn drawing_twice_restores_the_buffer() {
    let mut buffer = FrameBuffer::default();
    let sprite = [0b10110001, 0b00000111, 0b11111111];
    let first = buffer.draw((13, 7), &sprite);
    let second = buffer.draw((13, 7), &sprite);
    assert!(!first);
    assert!(second);
    for row in 0..32 {
        assert_eq!(buffer.rows()[row], 0);
    }
}

#[test]
fn clear_resets_every_pixel() {
    let mut buffer = FrameBuffer::default();
    buffer.draw((3, 4), &[0xFF, 0xFF]);
    buffer.clear();
    for row in 0..32 {
        assert_eq!(buffer.rows()[row], 0);
    }
}

#[test]
fn screen_dimensions() {
    let buffer = FrameBuffer::default();
    assert_eq!(buffer.get_screen_width(), 64);
    assert_eq!(buffer.get_screen_height(), 32);
}

#[test]
fn draw_row_coordinate_wraps_modulo_32() {
    let mut buffer = FrameBuffer::default();
    buffer.draw((0, 33), &[0b10000000]);
    assert_eq!(
        buffer.rows()[1],
        0b1000000000000000000000000000000000000000000000000000000000000000
    );
}

#[test]
fn draw_column_coordinate_wraps_modulo_64() {
    let mut buffer = FrameBuffer::default();
    buffer.draw((64, 0), &[0b10000000]);
    assert_eq!(
        buffer.rows()[0],
        0b1000000000000000000000000000000000000000000000000000000000000000
    );
}
