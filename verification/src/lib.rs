//! A CHIP-8 virtual machine core: a 4096-byte memory seeded with the built-in
//! hexadecimal font, sixteen 8-bit registers plus a 16-bit index register, a
//! 64x32 monochrome frame buffer with XOR sprite drawing, an opcode decoder,
//! and a fetch-decode-execute engine that publishes frame-buffer snapshots and
//! receives key presses over a pair of channels.

mod chip8;
mod frame_buffer;
mod host;
mod input_key;
mod io;
mod memory;
mod op_code;
mod registers;

pub use chip8::Chip8;
pub use chip8::Chip8Error;
pub use frame_buffer::FrameBuffer;
pub use input_key::InputKey;
pub use io::DrawInstruction;
pub use io::InputInstruction;
pub use memory::Memory;
pub use op_code::DecodeError;
pub use op_code::OpCode;
pub use op_code::pack_u8;
pub use registers::Registers;
pub use registers::VRegister;
