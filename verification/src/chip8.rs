use vstd::prelude::*;
use vstd::slice::slice_index_get;

use std::sync::mpsc::Receiver;
use std::sync::mpsc::Sender;

use crate::frame_buffer::DISPLAY_HEIGHT;
use crate::frame_buffer::DISPLAY_WIDTH;
use crate::frame_buffer::FrameBuffer;
use crate::frame_buffer::draw_collision;
use crate::frame_buffer::rows_after_draw;
use crate::host::random_byte;
use crate::host::receive_input;
use crate::host::send_draw;
use crate::input_key::InputKey;
use crate::io::DrawInstruction;
use crate::io::InputInstruction;
use crate::memory::MEMORY_SIZE;
use crate::memory::Memory;
use crate::op_code::OpCode;
use crate::op_code::decode_spec;
use crate::registers::Registers;
use crate::registers::VRegister;

verus! {

/// Address where loaded programs begin.
pub const PROGRAM_BASE: u16 = 0x200;

/// A failed fetch-decode-execute step. Each variant identifies the program
/// counter of the instruction that failed; a fetch that would cross the end
/// of memory reports the program counter itself as the failing address.
#[derive(Clone, Copy, Debug, PartialEq, Eq, Structural)]
pub enum Chip8Error {
    /// The fetched byte pair matched no supported pattern.
    InvalidOpCode { program_counter: u16, byte0: u8, byte1: u8 },
    /// A computed address lies outside the 4096-byte memory.
    AddressOutOfRange { program_counter: u16, address: u16 },
}

/// The execution engine: owns memory, registers, frame buffer, program
/// counter and call stack, and runs fetch-decode-execute against them. It
/// publishes a frame-buffer snapshot on every draw and can receive key
/// presses over its input channel.
pub struct Chip8 {
    pub memory: Memory,
    pub index: u16,
    pub program_counter: u16,
    pub stack_pointer: u8,
    pub stack: Vec<u16>,
    pub frame_buffer: FrameBuffer,
    pub v_registers: Registers,
    pub display_tx: Sender<DrawInstruction>,
    pub input_rx: Receiver<InputInstruction>,
}

impl Chip8 {
    pub open spec fn wf(&self) -> bool {
        &&& self.memory.wf()
        &&& self.v_registers.wf()
        &&& self.frame_buffer.wf()
        &&& self.stack@.len() == 16
    }
}

/// The call stack and stack pointer: reserved state that no implemented
/// opcode touches.
pub open spec fn reserved_unchanged(pre: Chip8, post: Chip8) -> bool {
    &&& post.stack_pointer == pre.stack_pointer
    &&& post.stack@ == pre.stack@
}

/// The machine components of `post` hold exactly the given values. The
/// channel ends are not part of the machine state.
pub open spec fn machine_state(
    post: Chip8,
    memory: Seq<u8>,
    v_registers: Seq<u8>,
    index: int,
    program_counter: int,
    frame: Seq<u64>,
) -> bool {
    &&& post.memory@ == memory
    &&& post.v_registers@ == v_registers
    &&& post.index == index
    &&& post.program_counter == program_counter
    &&& post.frame_buffer@ == frame
}

/// The machine state of `post` equals that of `pre`.
pub open spec fn same_state(pre: Chip8, post: Chip8) -> bool {
    &&& machine_state(
        post,
        pre.memory@,
        pre.v_registers@,
        pre.index as int,
        pre.program_counter as int,
        pre.frame_buffer@,
    )
    &&& reserved_unchanged(pre, post)
}

/// How executing the decoded `op` relates the machine state before the step
/// (`pre`, program counter still at `fetch_pc`) to the state after it, the
/// caller-supplied key, and the step's result. `Ok(false)` means the engine
/// halted in an orderly way because a channel's other end was gone.
pub open spec fn step_op(
    pre: Chip8,
    post: Chip8,
    fetch_pc: u16,
    op: OpCode,
    current_input: Option<InputKey>,
    result: Result<bool, Chip8Error>,
) -> bool {
    let pc2 = fetch_pc + 2;
    let consumed = Ok::<bool, Chip8Error>(true);
    match op {
        OpCode::Cls => {
            &&& machine_state(
                post,
                pre.memory@,
                pre.v_registers@,
                pre.index as int,
                pc2,
                Seq::new(32, |i: int| 0u64),
            )
            &&& reserved_unchanged(pre, post)
            &&& result == consumed
        },
        OpCode::Jump(location) => {
            &&& machine_state(
                post,
                pre.memory@,
                pre.v_registers@,
                pre.index as int,
                location as int,
                pre.frame_buffer@,
            )
            &&& reserved_unchanged(pre, post)
            &&& result == consumed
        },
        OpCode::LoadIndex(value) => {
            &&& machine_state(
                post,
                pre.memory@,
                pre.v_registers@,
                value as int,
                pc2,
                pre.frame_buffer@,
            )
            &&& reserved_unchanged(pre, post)
            &&& result == consumed
        },
        OpCode::SetRegister(register, value) => {
            &&& machine_state(
                post,
                pre.memory@,
                pre.v_registers@.update(register.index_spec(), value),
                pre.index as int,
                pc2,
                pre.frame_buffer@,
            )
            &&& reserved_unchanged(pre, post)
            &&& result == consumed
        },
        OpCode::Random(register, mask) => {
            // The random byte is outside anyone's control: only the mask is
            // promised, and every register but the target is untouched.
            &&& post.memory@ == pre.memory@
            &&& post.index == pre.index
            &&& post.program_counter == pc2
            &&& post.frame_buffer@ == pre.frame_buffer@
            &&& reserved_unchanged(pre, post)
            &&& post.v_registers@.len() == 16
            &&& post.v_registers@[register.index_spec()] & !mask == 0
            &&& forall|j: int|
                0 <= j < 16 && j != register.index_spec() ==> post.v_registers@[j]
                    == pre.v_registers@[j]
            &&& result == consumed
        },
        OpCode::LoadCharacter(register) => {
            &&& machine_state(
                post,
                pre.memory@,
                pre.v_registers@,
                5 * pre.v_registers@[register.index_spec()],
                pc2,
                pre.frame_buffer@,
            )
            &&& reserved_unchanged(pre, post)
            &&& result == consumed
        },
        OpCode::LoadDecimal(register) => {
            let base = pre.index as int;
            let value = pre.v_registers@[register.index_spec()];
            if base + 2 < MEMORY_SIZE {
                &&& machine_state(
                    post,
                    pre.memory@.update(base, value / 100).update(base + 1, value / 10 % 10).update(
                        base + 2,
                        value % 10,
                    ),
                    pre.v_registers@,
                    base,
                    pc2,
                    pre.frame_buffer@,
                )
                &&& reserved_unchanged(pre, post)
                &&& result == consumed
            } else {
                &&& machine_state(
                    post,
                    pre.memory@,
                    pre.v_registers@,
                    base,
                    pc2,
                    pre.frame_buffer@,
                )
                &&& reserved_unchanged(pre, post)
                &&& result == Err::<bool, Chip8Error>(
                    Chip8Error::AddressOutOfRange { program_counter: fetch_pc, address: pre.index },
                )
            }
        },
        OpCode::Fill(register) => {
            let base = pre.index as int;
            let count = register.index_spec() + 1;
            if base + count <= MEMORY_SIZE {
                &&& machine_state(
                    post,
                    pre.memory@,
                    Seq::new(
                        16,
                        |j: int|
                            if j < count {
                                pre.memory@[base + j]
                            } else {
                                pre.v_registers@[j]
                            },
                    ),
                    base + count,
                    pc2,
                    pre.frame_buffer@,
                )
                &&& reserved_unchanged(pre, post)
                &&& result == consumed
            } else {
                &&& machine_state(
                    post,
                    pre.memory@,
                    pre.v_registers@,
                    base,
                    pc2,
                    pre.frame_buffer@,
                )
                &&& reserved_unchanged(pre, post)
                &&& result == Err::<bool, Chip8Error>(
                    Chip8Error::AddressOutOfRange { program_counter: fetch_pc, address: pre.index },
                )
            }
        },
        OpCode::Draw((register_x, register_y), length) => {
            let base = pre.index as int;
            let x = pre.v_registers@[register_x.index_spec()];
            let y = pre.v_registers@[register_y.index_spec()];
            if base + length <= MEMORY_SIZE {
                let sprite = pre.memory@.subrange(base, base + length);
                let collision = draw_collision(pre.frame_buffer@, x, y, sprite);
                // The snapshot send may find the display's receiving end
                // gone; the draw itself happens either way, and `Ok(false)`
                // reports the orderly halt.
                &&& machine_state(
                    post,
                    pre.memory@,
                    pre.v_registers@.update(
                        0xF,
                        if collision {
                            1u8
                        } else {
                            0u8
                        },
                    ),
                    base,
                    pc2,
                    rows_after_draw(pre.frame_buffer@, x, y, sprite),
                )
                &&& reserved_unchanged(pre, post)
                &&& (result == Ok::<bool, Chip8Error>(true) || result == Ok::<bool, Chip8Error>(
                    false,
                ))
            } else {
                &&& machine_state(
                    post,
                    pre.memory@,
                    pre.v_registers@,
                    base,
                    pc2,
                    pre.frame_buffer@,
                )
                &&& reserved_unchanged(pre, post)
                &&& result == Err::<bool, Chip8Error>(
                    Chip8Error::AddressOutOfRange { program_counter: fetch_pc, address: pre.index },
                )
            }
        },
        OpCode::WaitForKeyPress(register) => {
            match current_input {
                // Polled mode: the caller-supplied key is consulted once and
                // the step proceeds.
                Some(key) => {
                    &&& machine_state(
                        post,
                        pre.memory@,
                        pre.v_registers@.update(register.index_spec(), key.value_spec()),
                        pre.index as int,
                        pc2,
                        pre.frame_buffer@,
                    )
                    &&& reserved_unchanged(pre, post)
                    &&& result == consumed
                },
                // Blocking mode: some key from the 16-key set arrives over
                // the input channel, or the channel is closed and the engine
                // halts in an orderly way.
                None => {
                    ||| {
                        &&& post.memory@ == pre.memory@
                        &&& post.index == pre.index
                        &&& post.program_counter == pc2
                        &&& post.frame_buffer@ == pre.frame_buffer@
                        &&& reserved_unchanged(pre, post)
                        &&& post.v_registers@.len() == 16
                        &&& post.v_registers@[register.index_spec()] < 16
                        &&& forall|j: int|
                            0 <= j < 16 && j != register.index_spec() ==> post.v_registers@[j]
                                == pre.v_registers@[j]
                        &&& result == consumed
                    }
                    ||| {
                        &&& machine_state(
                            post,
                            pre.memory@,
                            pre.v_registers@,
                            pre.index as int,
                            pc2,
                            pre.frame_buffer@,
                        )
                        &&& reserved_unchanged(pre, post)
                        &&& result == Ok::<bool, Chip8Error>(false)
                    }
                },
            }
        },
    }
}

/// How one `run_instruction` step relates the machine state before the call
/// to the state after it, the caller-supplied key, and the result: fetch two
/// bytes at the program counter, advance it by two, halt on the `0x0000`
/// sentinel, otherwise decode and dispatch.
pub open spec fn step(
    pre: Chip8,
    post: Chip8,
    current_input: Option<InputKey>,
    result: Result<bool, Chip8Error>,
) -> bool {
    let pc = pre.program_counter;
    if pc + 1 >= MEMORY_SIZE {
        &&& result == Err::<bool, Chip8Error>(
            Chip8Error::AddressOutOfRange { program_counter: pc, address: pc },
        )
        &&& same_state(pre, post)
    } else {
        let byte0 = pre.memory@[pc as int];
        let byte1 = pre.memory@[pc as int + 1];
        if byte0 == 0 && byte1 == 0 {
            &&& result == Ok::<bool, Chip8Error>(false)
            &&& machine_state(
                post,
                pre.memory@,
                pre.v_registers@,
                pre.index as int,
                pc + 2,
                pre.frame_buffer@,
            )
            &&& reserved_unchanged(pre, post)
        } else {
            match decode_spec(byte0, byte1) {
                Ok(op) => step_op(pre, post, pc, op, current_input, result),
                Err(_) => {
                    &&& result == Err::<bool, Chip8Error>(
                        Chip8Error::InvalidOpCode { program_counter: pc, byte0, byte1 },
                    )
                    &&& machine_state(
                        post,
                        pre.memory@,
                        pre.v_registers@,
                        pre.index as int,
                        pc + 2,
                        pre.frame_buffer@,
                    )
                    &&& reserved_unchanged(pre, post)
                },
            }
        }
    }
}

/// The states in `trace` join `pre` to `post` by steps that each consumed an
/// opcode, each run with no caller-supplied key.
pub open spec fn reaches_via(trace: Seq<Chip8>, pre: Chip8, post: Chip8) -> bool {
    &&& trace.len() >= 1
    &&& trace[0] == pre
    &&& trace[trace.len() - 1] == post
    &&& forall|i: int|
        0 <= i < trace.len() - 1 ==> #[trigger] step(
            trace[i],
            trace[i + 1],
            None,
            Ok::<bool, Chip8Error>(true),
        )
}

/// Zero or more opcode-consuming steps lead from `pre` to `post`.
pub open spec fn reaches(pre: Chip8, post: Chip8) -> bool {
    exists|trace: Seq<Chip8>| reaches_via(trace, pre, post)
}

/// More opcode-consuming steps than `run`'s instruction budget lead from
/// `pre` to `post`: the program was still running when `run` stopped
/// stepping.
pub open spec fn ran_out_of_steps(pre: Chip8, post: Chip8) -> bool {
    exists|trace: Seq<Chip8>| reaches_via(trace, pre, post) && trace.len() > u64::MAX
}

/// A step that fetches the two-zero-byte halt sentinel is deterministic:
/// whatever key was supplied or delivered and whatever the random source
/// did, two such steps from the same state agree on the final machine state,
/// and both report a halt.
pub proof fn lemma_halt_deterministic(
    pre: Chip8,
    post1: Chip8,
    post2: Chip8,
    input1: Option<InputKey>,
    input2: Option<InputKey>,
    result1: Result<bool, Chip8Error>,
    result2: Result<bool, Chip8Error>,
)
    requires
        pre.program_counter + 1 < MEMORY_SIZE,
        pre.memory@[pre.program_counter as int] == 0,
        pre.memory@[pre.program_counter as int + 1] == 0,
        step(pre, post1, input1, result1),
        step(pre, post2, input2, result2),
    ensures
        result1 == Ok::<bool, Chip8Error>(false),
        result2 == Ok::<bool, Chip8Error>(false),
        same_state(post1, post2),
{
}

/// A step whose fetched instruction is neither `Random` nor
/// `WaitForKeyPress` is deterministic in the machine state: host timing,
/// randomness and key input cannot influence where it ends up.
pub proof fn lemma_step_deterministic(
    pre: Chip8,
    post1: Chip8,
    post2: Chip8,
    input1: Option<InputKey>,
    input2: Option<InputKey>,
    result1: Result<bool, Chip8Error>,
    result2: Result<bool, Chip8Error>,
)
    requires
        step(pre, post1, input1, result1),
        step(pre, post2, input2, result2),
        pre.program_counter + 1 < MEMORY_SIZE ==> !(decode_spec(
            pre.memory@[pre.program_counter as int],
            pre.memory@[pre.program_counter as int + 1],
        ) matches Ok(op) && (op is Random || op is WaitForKeyPress)),
    ensures
        same_state(post1, post2),
{
}

proof fn lemma_masked_byte(mask: u8, byte: u8)
    by (bit_vector)
    ensures
        (mask & byte) & !mask == 0,
{
}

/// An owned copy of the frame-buffer rows for a snapshot message.
#[verifier::loop_isolation(false)]
fn copy_rows(rows: &Vec<u64>) -> (copy: Vec<u64>)
    ensures
        copy@ == rows@,
{
    let mut copy: Vec<u64> = Vec::new();
    let mut i: usize = 0;
    while i < rows.len()
        invariant
            i <= rows@.len(),
            copy@ == rows@.take(i as int),
        decreases rows@.len() - i,
    {
        copy.push(rows[i]);
        proof {
            assert(copy@ =~= rows@.take(i + 1));
        }
        i = i + 1;
    }
    proof {
        assert(rows@.take(rows@.len() as int) =~= rows@);
    }
    copy
}

impl Chip8 {
    /// A freshly constructed engine: font-seeded memory, zeroed registers
    /// and frame buffer, program counter at the program base.
    #[verifier::loop_isolation(false)]
    pub fn new(
        display_tx: Sender<DrawInstruction>,
        input_rx: Receiver<InputInstruction>,
    ) -> (chip8: Chip8)
        ensures
            chip8.wf(),
            chip8.memory@ == Memory::initial(),
            chip8.index == 0,
            chip8.program_counter == PROGRAM_BASE,
            chip8.stack_pointer == 0,
            chip8.stack@ == Seq::new(16, |i: int| 0u16),
            chip8.v_registers@ == Seq::new(16, |i: int| 0u8),
            chip8.frame_buffer@ == Seq::new(32, |i: int| 0u64),
    {
        let mut stack: Vec<u16> = Vec::new();
        while stack.len() < 16
            invariant
                stack@.len() <= 16,
                stack@ == Seq::new(stack@.len(), |i: int| 0u16),
            decreases 16 - stack@.len(),
        {
            stack.push(0);
            proof {
                assert(stack@ =~= Seq::new(stack@.len(), |i: int| 0u16));
            }
        }
        Chip8 {
            memory: Memory::default(),
            index: 0,
            program_counter: PROGRAM_BASE,
            stack_pointer: 0,
            stack,
            frame_buffer: FrameBuffer::default(),
            v_registers: Registers::default(),
            display_tx,
            input_rx,
        }
    }

    /// Load a program image: raw ordered bytes written sequentially from the
    /// program base, everything else untouched.
    #[verifier::loop_isolation(false)]
    pub fn load(&mut self, rom: &[u8])
        requires
            old(self).wf(),
            rom@.len() + PROGRAM_BASE <= MEMORY_SIZE,
        ensures
            final(self).wf(),
            forall|i: int|
                0 <= i < rom@.len() ==> final(self).memory@[PROGRAM_BASE + i] == rom@[i],
            forall|a: int|
                0 <= a < MEMORY_SIZE && !(PROGRAM_BASE <= a < PROGRAM_BASE + rom@.len())
                    ==> final(self).memory@[a] == old(self).memory@[a],
            final(self).v_registers@ == old(self).v_registers@,
            final(self).index == old(self).index,
            final(self).program_counter == old(self).program_counter,
            final(self).frame_buffer@ == old(self).frame_buffer@,
            reserved_unchanged(*old(self), *final(self)),
    {
        let mut offset: usize = 0;
        while offset < rom.len()
            invariant
                offset <= rom@.len(),
                self.wf(),
                forall|i: int| 0 <= i < offset ==> self.memory@[PROGRAM_BASE + i] == rom@[i],
                forall|a: int|
                    0 <= a < MEMORY_SIZE && !(PROGRAM_BASE <= a < PROGRAM_BASE + offset)
                        ==> self.memory@[a] == old(self).memory@[a],
                self.v_registers@ == old(self).v_registers@,
                self.index == old(self).index,
                self.program_counter == old(self).program_counter,
                self.frame_buffer@ == old(self).frame_buffer@,
                reserved_unchanged(*old(self), *self),
            decreases rom@.len() - offset,
        {
            let byte = *slice_index_get(rom, offset);
            self.memory.set(PROGRAM_BASE + (offset as u16), byte);
            offset = offset + 1;
        }
    }

    /// Step repeatedly, with no caller-supplied key, until the program halts
    /// or a step fails; a failing step surfaces its error instead of
    /// corrupting state. The loop carries an instruction budget so that it
    /// provably terminates; at one instruction per nanosecond the budget
    /// would take centuries to exhaust, and exhausting it reports an orderly
    /// stop.
    #[verifier::loop_isolation(false)]
    pub fn run(&mut self) -> (outcome: Result<(), Chip8Error>)
        requires
            old(self).wf(),
        ensures
            final(self).wf(),
            outcome == Ok::<(), Chip8Error>(()) ==> (exists|last: Chip8|
                #[trigger] reaches(*old(self), last) && step(
                    last,
                    *final(self),
                    None,
                    Ok::<bool, Chip8Error>(false),
                )) || ran_out_of_steps(*old(self), *final(self)),
            outcome matches Err(error) ==> exists|last: Chip8|
                #[trigger] reaches(*old(self), last) && step(
                    last,
                    *final(self),
                    None,
                    Err::<bool, Chip8Error>(error),
                ),
    {
        let ghost mut trace: Seq<Chip8> = seq![*old(self)];
        let mut budget: u64 = u64::MAX;
        loop
            invariant
                self.wf(),
                reaches_via(trace, *old(self), *self),
                trace.len() == u64::MAX - budget + 1,
            decreases budget,
        {
            if budget == 0 {
                proof {
                    assert(reaches_via(trace, *old(self), *self) && trace.len() > u64::MAX);
                    assert(ran_out_of_steps(*old(self), *self));
                }
                return Ok(());
            }
            budget = budget - 1;
            let ghost before = *self;
            match self.run_instruction(None) {
                Ok(true) => {
                    proof {
                        trace = trace.push(*self);
                        assert forall|i: int| 0 <= i < trace.len() - 1 implies #[trigger] step(
                            trace[i],
                            trace[i + 1],
                            None,
                            Ok::<bool, Chip8Error>(true),
                        ) by {
                            if i == trace.len() - 2 {
                                assert(trace[i] == before);
                                assert(trace[i + 1] == *self);
                            }
                        }
                    }
                },
                Ok(false) => {
                    proof {
                        assert(reaches_via(trace, *old(self), before));
                        assert(reaches(*old(self), before));
                        assert(step(before, *self, None, Ok::<bool, Chip8Error>(false)));
                    }
                    return Ok(());
                },
                Err(error) => {
                    proof {
                        assert(reaches_via(trace, *old(self), before));
                        assert(reaches(*old(self), before));
                        assert(step(before, *self, None, Err::<bool, Chip8Error>(error)));
                    }
                    return Err(error);
                },
            }
        }
    }

    /// One fetch-decode-execute step. `Ok(true)`: an opcode was consumed.
    /// `Ok(false)`: the engine halted in an orderly way — the halt sentinel
    /// was fetched, or a channel's other end was gone. `Err`: the step
    /// failed, and the error identifies the failing program counter together
    /// with the offending bytes or address; the machine state is not
    /// corrupted. A caller-supplied `current_input` is consulted once by
    /// `WaitForKeyPress` in place of blocking on the input channel.
    pub fn run_instruction(&mut self, current_input: Option<InputKey>) -> (result: Result<
        bool,
        Chip8Error,
    >)
        requires
            old(self).wf(),
        ensures
            final(self).wf(),
            step(*old(self), *final(self), current_input, result),
    {
        let fetch_pc = self.program_counter;
        let op_code = match self.next_opcode() {
            Ok(Some(op_code)) => op_code,
            Ok(None) => {
                return Ok(false);
            },
            Err(error) => {
                return Err(error);
            },
        };

        match op_code {
            OpCode::Cls => {
                self.frame_buffer.clear();
                Ok(true)
            },
            OpCode::Jump(location) => {
                self.program_counter = location;
                Ok(true)
            },
            OpCode::Random(register, mask) => {
                let byte = random_byte();
                proof {
                    lemma_masked_byte(mask, byte);
                }
                self.v_registers.set(register, mask & byte);
                Ok(true)
            },
            OpCode::LoadIndex(value) => {
                self.index = value;
                Ok(true)
            },
            OpCode::LoadDecimal(register) => self.exec_load_decimal(register, fetch_pc),
            OpCode::Fill(register) => self.exec_fill(register, fetch_pc),
            OpCode::LoadCharacter(register) => {
                let value = self.v_registers.get(register);
                self.index = self.memory.index_of_char(value);
                Ok(true)
            },
            OpCode::SetRegister(register, value) => {
                self.v_registers.set(register, value);
                Ok(true)
            },
            OpCode::Draw((register_x, register_y), length) => self.exec_draw(
                register_x,
                register_y,
                length,
                fetch_pc,
            ),
            OpCode::WaitForKeyPress(register) => {
                match current_input {
                    Some(key) => {
                        let value = key.value();
                        self.v_registers.set(register, value);
                        Ok(true)
                    },
                    None => {
                        match receive_input(&self.input_rx) {
                            Some(instruction) => {
                                let value = instruction.key().value();
                                self.v_registers.set(register, value);
                                Ok(true)
                            },
                            None => Ok(false),
                        }
                    },
                }
            },
        }
    }

    /// Fetch the two instruction bytes at the program counter, advance it by
    /// two, and decode. `Ok(None)` is the halt sentinel: a fetched `0x0000`.
    fn next_opcode(&mut self) -> (fetched: Result<Option<OpCode>, Chip8Error>)
        requires
            old(self).wf(),
        ensures
            final(self).wf(),
            final(self).memory@ == old(self).memory@,
            final(self).v_registers@ == old(self).v_registers@,
            final(self).index == old(self).index,
            final(self).frame_buffer@ == old(self).frame_buffer@,
            reserved_unchanged(*old(self), *final(self)),
            ({
                let pc = old(self).program_counter;
                if pc + 1 >= MEMORY_SIZE {
                    &&& fetched == Err::<Option<OpCode>, Chip8Error>(
                        Chip8Error::AddressOutOfRange { program_counter: pc, address: pc },
                    )
                    &&& final(self).program_counter == pc
                } else {
                    let byte0 = old(self).memory@[pc as int];
                    let byte1 = old(self).memory@[pc as int + 1];
                    &&& final(self).program_counter == pc + 2
                    &&& if byte0 == 0 && byte1 == 0 {
                        fetched == Ok::<Option<OpCode>, Chip8Error>(None)
                    } else {
                        match decode_spec(byte0, byte1) {
                            Ok(op) => fetched == Ok::<Option<OpCode>, Chip8Error>(Some(op)),
                            Err(_) => fetched == Err::<Option<OpCode>, Chip8Error>(
                                Chip8Error::InvalidOpCode {
                                    program_counter: pc,
                                    byte0,
                                    byte1,
                                },
                            ),
                        }
                    }
                }
            }),
    {
        if self.program_counter >= 0xFFF {
            return Err(
                Chip8Error::AddressOutOfRange {
                    program_counter: self.program_counter,
                    address: self.program_counter,
                },
            );
        }
        let fetch_pc = self.program_counter;
        let most_significant_byte = self.memory.get(self.program_counter);
        self.program_counter = self.program_counter + 1;
        let least_significant_byte = self.memory.get(self.program_counter);
        self.program_counter = self.program_counter + 1;

        if most_significant_byte == 0 && least_significant_byte == 0 {
            // Halt sentinel: no more program to execute.
            return Ok(None);
        }

        match OpCode::try_from([most_significant_byte, least_significant_byte]) {
            Ok(op_code) => Ok(Some(op_code)),
            Err(error) => Err(
                Chip8Error::InvalidOpCode {
                    program_counter: fetch_pc,
                    byte0: error.byte0,
                    byte1: error.byte1,
                },
            ),
        }
    }

    /// Store the three decimal digits of the register's value at the index
    /// register's address onwards; the index register itself is unchanged.
    fn exec_load_decimal(&mut self, register: VRegister, fetch_pc: u16) -> (result: Result<
        bool,
        Chip8Error,
    >)
        requires
            old(self).wf(),
        ensures
            final(self).wf(),
            final(self).v_registers@ == old(self).v_registers@,
            final(self).index == old(self).index,
            final(self).program_counter == old(self).program_counter,
            final(self).frame_buffer@ == old(self).frame_buffer@,
            reserved_unchanged(*old(self), *final(self)),
            ({
                let base = old(self).index as int;
                let value = old(self).v_registers@[register.index_spec()];
                if base + 2 < MEMORY_SIZE {
                    &&& final(self).memory@ == old(self).memory@.update(base, value / 100).update(
                        base + 1,
                        value / 10 % 10,
                    ).update(base + 2, value % 10)
                    &&& result == Ok::<bool, Chip8Error>(true)
                } else {
                    &&& final(self).memory@ == old(self).memory@
                    &&& result == Err::<bool, Chip8Error>(
                        Chip8Error::AddressOutOfRange {
                            program_counter: fetch_pc,
                            address: old(self).index,
                        },
                    )
                }
            }),
    {
        let value = self.v_registers.get(register);
        if self.index <= 0x0FFD {
            let hundreds = value / 100;
            let tens = value / 10 % 10;
            let ones = value % 10;

            self.memory.set(self.index, hundreds);
            self.memory.set(self.index + 1, tens);
            self.memory.set(self.index + 2, ones);
            Ok(true)
        } else {
            Err(
                Chip8Error::AddressOutOfRange { program_counter: fetch_pc, address: self.index },
            )
        }
    }

    /// Load V0 up to and including the given register from memory at the
    /// index register's address, advancing the index once per register.
    #[verifier::loop_isolation(false)]
    fn exec_fill(&mut self, register: VRegister, fetch_pc: u16) -> (result: Result<
        bool,
        Chip8Error,
    >)
        requires
            old(self).wf(),
        ensures
            final(self).wf(),
            final(self).memory@ == old(self).memory@,
            final(self).program_counter == old(self).program_counter,
            final(self).frame_buffer@ == old(self).frame_buffer@,
            reserved_unchanged(*old(self), *final(self)),
            ({
                let base = old(self).index as int;
                let count = register.index_spec() + 1;
                if base + count <= MEMORY_SIZE {
                    &&& final(self).index == base + count
                    &&& final(self).v_registers@ == Seq::new(
                        16,
                        |j: int|
                            if j < count {
                                old(self).memory@[base + j]
                            } else {
                                old(self).v_registers@[j]
                            },
                    )
                    &&& result == Ok::<bool, Chip8Error>(true)
                } else {
                    &&& final(self).index == old(self).index
                    &&& final(self).v_registers@ == old(self).v_registers@
                    &&& result == Err::<bool, Chip8Error>(
                        Chip8Error::AddressOutOfRange {
                            program_counter: fetch_pc,
                            address: old(self).index,
                        },
                    )
                }
            }),
    {
        let end_index = register.index();
        if (self.index as usize) + end_index + 1 <= MEMORY_SIZE {
            let ghost base = self.index as int;
            proof {
                assert(self.v_registers@ =~= Seq::new(
                    16,
                    |t: int|
                        if t < 0 {
                            old(self).memory@[base + t]
                        } else {
                            old(self).v_registers@[t]
                        },
                ));
            }
            let mut j: usize = 0;
            while j <= end_index
                invariant
                    j <= end_index + 1,
                    end_index == register.index_spec(),
                    base + end_index + 1 <= MEMORY_SIZE,
                    self.index as int == base + j,
                    self.wf(),
                    self.memory@ == old(self).memory@,
                    self.program_counter == old(self).program_counter,
                    self.frame_buffer@ == old(self).frame_buffer@,
                    reserved_unchanged(*old(self), *self),
                    self.v_registers@ == Seq::new(
                        16,
                        |t: int|
                            if t < j {
                                old(self).memory@[base + t]
                            } else {
                                old(self).v_registers@[t]
                            },
                    ),
                decreases end_index + 1 - j,
            {
                let value = self.memory.get(self.index);
                self.v_registers.set(VRegister::from_nibble(j as u8), value);
                self.index = self.index + 1;
                proof {
                    assert(self.v_registers@ =~= Seq::new(
                        16,
                        |t: int|
                            if t < j + 1 {
                                old(self).memory@[base + t]
                            } else {
                                old(self).v_registers@[t]
                            },
                    ));
                }
                j = j + 1;
            }
            Ok(true)
        } else {
            Err(
                Chip8Error::AddressOutOfRange { program_counter: fetch_pc, address: self.index },
            )
        }
    }

    /// Draw the sprite at memory[Index .. Index + length) at the position
    /// held in the two registers, set VF to the collision result, and
    /// publish a snapshot of the frame buffer on the display channel.
    fn exec_draw(
        &mut self,
        register_x: VRegister,
        register_y: VRegister,
        length: u8,
        fetch_pc: u16,
    ) -> (result: Result<bool, Chip8Error>)
        requires
            old(self).wf(),
        ensures
            final(self).wf(),
            final(self).memory@ == old(self).memory@,
            final(self).index == old(self).index,
            final(self).program_counter == old(self).program_counter,
            reserved_unchanged(*old(self), *final(self)),
            ({
                let base = old(self).index as int;
                let x = old(self).v_registers@[register_x.index_spec()];
                let y = old(self).v_registers@[register_y.index_spec()];
                if base + length <= MEMORY_SIZE {
                    let sprite = old(self).memory@.subrange(base, base + length);
                    let collision = draw_collision(old(self).frame_buffer@, x, y, sprite);
                    &&& final(self).frame_buffer@ == rows_after_draw(
                        old(self).frame_buffer@,
                        x,
                        y,
                        sprite,
                    )
                    &&& final(self).v_registers@ == old(self).v_registers@.update(
                        0xF,
                        if collision {
                            1u8
                        } else {
                            0u8
                        },
                    )
                    &&& (result == Ok::<bool, Chip8Error>(true) || result == Ok::<
                        bool,
                        Chip8Error,
                    >(false))
                } else {
                    &&& final(self).frame_buffer@ == old(self).frame_buffer@
                    &&& final(self).v_registers@ == old(self).v_registers@
                    &&& result == Err::<bool, Chip8Error>(
                        Chip8Error::AddressOutOfRange {
                            program_counter: fetch_pc,
                            address: old(self).index,
                        },
                    )
                }
            }),
    {
        let x = self.v_registers.get(register_x);
        let y = self.v_registers.get(register_y);
        if (self.index as usize) + (length as usize) <= MEMORY_SIZE {
            let sprite = self.memory.range(self.index, length as u16);
            let turned_bit_off = self.frame_buffer.draw((x, y), sprite.as_slice());

            if turned_bit_off {
                self.v_registers.set(VRegister::VF, 1);
            } else {
                self.v_registers.set(VRegister::VF, 0);
            }

            let snapshot = DrawInstruction::new(copy_rows(self.frame_buffer.rows()));
            let delivered = send_draw(&self.display_tx, snapshot);
            Ok(delivered)
        } else {
            Err(
                Chip8Error::AddressOutOfRange { program_counter: fetch_pc, address: self.index },
            )
        }
    }

    /// Read access to the frame buffer.
    pub fn frame_buffer(&self) -> (frame_buffer: &FrameBuffer)
        ensures
            frame_buffer@ == self.frame_buffer@,
    {
        &self.frame_buffer
    }

    pub fn get_screen_width(&self) -> (width: usize)
        ensures
            width == DISPLAY_WIDTH,
    {
        self.frame_buffer().get_screen_width()
    }

    pub fn get_screen_height(&self) -> (height: usize)
        ensures
            height == DISPLAY_HEIGHT,
    {
        self.frame_buffer().get_screen_height()
    }
}

} // verus!
