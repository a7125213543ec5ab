use vstd::prelude::*;

use std::sync::mpsc::Receiver;
use std::sync::mpsc::Sender;

use crate::io::DrawInstruction;
use crate::io::InputInstruction;

verus! {

/// The sending half of a standard one-directional FIFO channel.
#[verifier::external_type_specification]
#[verifier::external_body]
#[verifier::reject_recursive_types(T)]
pub struct ExSender<T>(Sender<T>);

/// The receiving half of a standard one-directional FIFO channel.
#[verifier::external_type_specification]
#[verifier::external_body]
#[verifier::reject_recursive_types(T)]
pub struct ExReceiver<T>(Receiver<T>);

/// Relies on std::sync::mpsc::Sender::send: queues the snapshot for the
/// receiving half, in send order, without blocking; it fails exactly when
/// the receiving half has been dropped. Nothing is promised of the outcome.
#[verifier::external_body]
pub(crate) fn send_draw(sender: &Sender<DrawInstruction>, instruction: DrawInstruction) -> (delivered: bool) {
    sender.send(instruction).is_ok()
}

/// Relies on std::sync::mpsc::Receiver::recv: blocks until a message
/// arrives, or returns nothing once the sending half has been dropped and
/// the channel is drained. Nothing is promised of which key arrives.
#[verifier::external_body]
pub(crate) fn receive_input(receiver: &Receiver<InputInstruction>) -> (message: Option<
    InputInstruction,
>) {
    receiver.recv().ok()
}

/// Relies on rand::random: one byte from the thread-local random generator.
/// Nothing is promised of its value.
#[verifier::external_body]
pub(crate) fn random_byte() -> u8 {
    rand::random::<u8>()
}

} // verus!
