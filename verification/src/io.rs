use vstd::prelude::*;

use crate::input_key::InputKey;

verus! {

/// A frame-buffer snapshot published on every draw: an owned copy of the
/// 32 rows at the moment of drawing, never a live view of engine state.
pub struct DrawInstruction {
    rows: Vec<u64>,
}

impl View for DrawInstruction {
    type V = Seq<u64>;

    closed spec fn view(&self) -> Seq<u64> {
        self.rows@
    }
}

impl DrawInstruction {
    pub fn new(buffer: Vec<u64>) -> (instruction: DrawInstruction)
        ensures
            instruction@ == buffer@,
    {
        DrawInstruction { rows: buffer }
    }

    pub fn buffer(&self) -> (buffer: &Vec<u64>)
        ensures
            buffer@ == self@,
    {
        &self.rows
    }
}

/// A key-press message: one key identifier from the 16-key set.
pub struct InputInstruction {
    key: InputKey,
}

impl InputInstruction {
    pub closed spec fn key_spec(self) -> InputKey {
        self.key
    }

    pub fn new(input_key: InputKey) -> (instruction: InputInstruction)
        ensures
            instruction.key_spec() == input_key,
    {
        InputInstruction { key: input_key }
    }

    pub fn key(self) -> (key: InputKey)
        ensures
            key == self.key_spec(),
    {
        self.key
    }
}

} // verus!
