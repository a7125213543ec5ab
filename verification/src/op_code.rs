use vstd::prelude::*;

use crate::registers::VRegister;

verus! {

/// A malformed instruction: exactly the two raw bytes that matched no
/// supported pattern.
#[derive(Clone, Copy, Debug, PartialEq, Eq, Structural)]
pub struct DecodeError {
    pub byte0: u8,
    pub byte1: u8,
}

/// One decoded unit of executable instruction, identified by mnemonic and
/// carrying only its relevant operands. Invalid operands are unrepresentable:
/// register nibbles decode through the closed 16-value register set.
#[derive(Clone, Copy, Debug, PartialEq, Eq)]
pub enum OpCode {
    /// Clear the display (`00E0`)
    Cls,
    /// Set value of V register (`6xkk`)
    SetRegister(VRegister, u8),
    /// Set value of index register (`Annn`)
    LoadIndex(u16),
    /// Jump to location (`1nnn`)
    Jump(u16),
    /// Set a register to a random value (`Cxkk`)
    ///
    /// The randomly generated value is and-ed with the given `kk` value.
    Random(VRegister, u8),
    /// Draw a sprite to the screen (`Dxyn`)
    ///
    /// Draws an n-byte sprite at position (Vx, Vy). The sprite is read from
    /// the memory address pointed at by the index register. Sprites are XORed
    /// onto the screen; VF reports whether a set pixel was turned off.
    /// Sprites wrap around if they go through the edge of the screen.
    Draw((VRegister, VRegister), u8),
    /// Wait for key press and store the value of the key in the given V
    /// register (`Fx0A`)
    WaitForKeyPress(VRegister),
    /// Point index to the character corresponding to the value of the given
    /// register (`Fx29`)
    LoadCharacter(VRegister),
    /// Load decimal representation in memory (`Fx33`)
    ///
    /// Stores the decimal digits of the given register's value in memory:
    /// hundreds at the address pointed at by the index register, tens at the
    /// next one, ones at the one after.
    LoadDecimal(VRegister),
    /// Loads data from memory to V registers up to the given one (`Fx65`)
    ///
    /// Loads values from memory, starting at the address pointed at by the
    /// index register, to the V registers up until the given one inclusive.
    Fill(VRegister),
}

/// The register named by the low nibble of `byte`.
pub open spec fn register_of_low_nibble(byte: u8) -> VRegister {
    VRegister::from_index(byte as int % 16)
}

/// The register named by the high nibble of `byte`.
pub open spec fn register_of_high_nibble(byte: u8) -> VRegister {
    VRegister::from_index(byte as int / 16)
}

/// The 12-bit address held in the low nibble of `byte0` and all of `byte1`.
pub open spec fn address_of(byte0: u8, byte1: u8) -> u16 {
    ((byte0 % 16) * 256 + byte1) as u16
}

/// What a two-byte instruction decodes to: priority-ordered pattern matching
/// on the raw bytes, most specific pattern first (the `Fx__` family is told
/// apart by its low byte before any wildcard match), or a `DecodeError`
/// carrying the bytes when no pattern applies.
pub open spec fn decode_spec(byte0: u8, byte1: u8) -> Result<OpCode, DecodeError> {
    if byte0 == 0x00 && byte1 == 0xE0 {
        Ok(OpCode::Cls)
    } else if 0x10 <= byte0 && byte0 <= 0x1F {
        Ok(OpCode::Jump(address_of(byte0, byte1)))
    } else if 0xA0 <= byte0 && byte0 <= 0xAF {
        Ok(OpCode::LoadIndex(address_of(byte0, byte1)))
    } else if 0xC0 <= byte0 && byte0 <= 0xCF {
        Ok(OpCode::Random(register_of_low_nibble(byte0), byte1))
    } else if 0xF0 <= byte0 && byte1 == 0x29 {
        Ok(OpCode::LoadCharacter(register_of_low_nibble(byte0)))
    } else if 0xF0 <= byte0 && byte1 == 0x33 {
        Ok(OpCode::LoadDecimal(register_of_low_nibble(byte0)))
    } else if 0xF0 <= byte0 && byte1 == 0x65 {
        Ok(OpCode::Fill(register_of_low_nibble(byte0)))
    } else if 0x60 <= byte0 && byte0 <= 0x6F {
        Ok(OpCode::SetRegister(register_of_low_nibble(byte0), byte1))
    } else if 0xD0 <= byte0 && byte0 <= 0xDF {
        Ok(
            OpCode::Draw(
                (register_of_low_nibble(byte0), register_of_high_nibble(byte1)),
                (byte1 % 16) as u8,
            ),
        )
    } else if 0xF0 <= byte0 && byte1 == 0x0A {
        Ok(OpCode::WaitForKeyPress(register_of_low_nibble(byte0)))
    } else {
        Err(DecodeError { byte0, byte1 })
    }
}

proof fn lemma_decode_bits(byte0: u8, byte1: u8)
    by (bit_vector)
    ensures
        ((((byte0 as u16) << 8) | (byte1 as u16)) & 0x0FFF) == (byte0 % 16) * 256 + byte1,
        byte0 & 0x0F == byte0 % 16,
        (byte1 & 0xF0) >> 4 == byte1 / 16,
        byte1 & 0x0F == byte1 % 16,
        byte0 % 16 < 16,
        byte1 / 16 < 16,
{
}

/// The two instruction bytes packed big-endian into one 16-bit value.
pub fn pack_u8(value: [u8; 2]) -> (packed: u16)
    ensures
        packed == (((value[0] as u16) << 8) | (value[1] as u16)),
{
    ((value[0] as u16) << 8) | (value[1] as u16)
}

impl OpCode {
    /// Decode a two-byte instruction. Decoding mutates nothing and cannot
    /// crash: every byte pair that matches no supported pattern is reported
    /// as a `DecodeError` carrying exactly those bytes.
    pub fn try_from(bytes: [u8; 2]) -> (op_code: Result<OpCode, DecodeError>)
        ensures
            op_code == decode_spec(bytes[0], bytes[1]),
            op_code is Err <==> decode_spec(bytes[0], bytes[1]) is Err,
            op_code is Err ==> op_code == Result::<OpCode, DecodeError>::Err(
                DecodeError { byte0: bytes[0], byte1: bytes[1] },
            ),
    {
        let byte0 = bytes[0];
        let byte1 = bytes[1];
        proof {
            lemma_decode_bits(byte0, byte1);
        }
        if byte0 == 0x00 && byte1 == 0xE0 {
            Ok(OpCode::Cls)
        } else if 0x10 <= byte0 && byte0 <= 0x1F {
            Ok(OpCode::Jump(pack_u8(bytes) & 0x0FFF))
        } else if 0xA0 <= byte0 && byte0 <= 0xAF {
            Ok(OpCode::LoadIndex(pack_u8(bytes) & 0x0FFF))
        } else if 0xC0 <= byte0 && byte0 <= 0xCF {
            let register = VRegister::from_nibble(byte0 & 0x0F);
            Ok(OpCode::Random(register, byte1))
        } else if 0xF0 <= byte0 && byte1 == 0x29 {
            let register = VRegister::from_nibble(byte0 & 0x0F);
            Ok(OpCode::LoadCharacter(register))
        } else if 0xF0 <= byte0 && byte1 == 0x33 {
            let register = VRegister::from_nibble(byte0 & 0x0F);
            Ok(OpCode::LoadDecimal(register))
        } else if 0xF0 <= byte0 && byte1 == 0x65 {
            let register = VRegister::from_nibble(byte0 & 0x0F);
            Ok(OpCode::Fill(register))
        } else if 0x60 <= byte0 && byte0 <= 0x6F {
            let register = VRegister::from_nibble(byte0 & 0x0F);
            Ok(OpCode::SetRegister(register, byte1))
        } else if 0xD0 <= byte0 && byte0 <= 0xDF {
            let register_x = VRegister::from_nibble(byte0 & 0x0F);
            let register_y = VRegister::from_nibble((byte1 & 0xF0) >> 4);
            let sprite_length = byte1 & 0x0F;
            Ok(OpCode::Draw((register_x, register_y), sprite_length))
        } else if 0xF0 <= byte0 && byte1 == 0x0A {
            let register = VRegister::from_nibble(byte0 & 0x0F);
            Ok(OpCode::WaitForKeyPress(register))
        } else {
            Err(DecodeError { byte0, byte1 })
        }
    }
}

} // verus!
