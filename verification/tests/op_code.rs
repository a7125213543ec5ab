use chip8::DecodeError;
use chip8::OpCode;
use chip8::VRegister;
use chip8::pack_u8;

#[test]
fn parse_cls_code() {
    let op_code = OpCode::try_from([0x00, 0xE0]).unwrap();
    assert!(matches!(op_code, OpCode::Cls));
}

#[test]
fn parse_jump() {
    let op_code = OpCode::try_from([0x10, 0xAA]).unwrap();
    assert!(matches!(op_code, OpCode::Jump(0x00AA)));
}

#[test]
fn parse_load_index() {
    let op_code = OpCode::try_from([0xAB, 0xCD]).unwrap();
    assert!(matches!(op_code, OpCode::LoadIndex(0x0BCD)));
}

#[test]
fn parse_random_byte() {
    let op_code = OpCode::try_from([0xc2, 0x12]).unwrap();
    assert!(matches!(op_code, OpCode::Random(VRegister::V2, 0x12)));
}

#[test]
fn parse_load_decimal() {
    let op_code = OpCode::try_from([0xf2, 0x33]).unwrap();
    assert!(matches!(op_code, OpCode::LoadDecimal(VRegister::V2)));
}

#[test]
fn parse_draw_sprite() {
    let op_code = OpCode::try_from([0xd4, 0x58]).unwrap();
    assert!(matches!(
        op_code,
        OpCode::Draw((VRegister::V4, VRegister::V5), 0x8)
    ));
}

#[test]
fn parse_set_register() {
    let op_code = OpCode::try_from([0x6A, 0x7F]).unwrap();
    assert!(matches!(op_code, OpCode::SetRegister(VRegister::VA, 0x7F)));
}

#[test]
fn parse_load_character() {
    let op_code = OpCode::try_from([0xfb, 0x29]).unwrap();
    assert!(matches!(op_code, OpCode::LoadCharacter(VRegister::VB)));
}

#[test]
fn parse_fill() {
    let op_code = OpCode::try_from([0xf7, 0x65]).unwrap();
    assert!(matches!(op_code, OpCode::Fill(VRegister::V7)));
}

#[test]
fn parse_wait_for_key_press() {
    let op_code = OpCode::try_from([0xf4, 0x0A]).unwrap();
    assert!(matches!(op_code, OpCode::WaitForKeyPress(VRegister::V4)));
}

#[test]
fn unmatched_pattern_error_carries_bytes() {
    let error = OpCode::try_from([0x8F, 0x12]).unwrap_err();
    assert_eq!(
        error,
        DecodeError {
            byte0: 0x8F,
            byte1: 0x12
        }
    );
}

#[test]
fn zero_bytes_are_no_opcode() {
    let error = OpCode::try_from([0x00, 0x00]).unwrap_err();
    assert_eq!(
        error,
        DecodeError {
            byte0: 0x00,
            byte1: 0x00
        }
    );
}

#[test]
fn fx_family_low_byte_disambiguates() {
    // `F265` is Fill, not a wildcard match of another `Fx__` form.
    let op_code = OpCode::try_from([0xF2, 0x65]).unwrap();
    assert!(matches!(op_code, OpCode::Fill(VRegister::V2)));
    // An `Fx__` pattern with an unknown low byte decodes to nothing.
    let error = OpCode::try_from([0xF2, 0x66]).unwrap_err();
    assert_eq!(
        error,
        DecodeError {
            byte0: 0xF2,
            byte1: 0x66
        }
    );
}

#[test]
fn pack_u8_is_big_endian() {
    assert_eq!(pack_u8([0xAB, 0xCD]), 0xABCD);
    assert_eq!(pack_u8([0x00, 0x01]), 0x0001);
    assert_eq!(pack_u8([0xFF, 0x00]), 0xFF00);
}
