use vstd::prelude::*;

verus! {

// The two threads of one cosimulation run — the host thread driving the
// serial master and the simulation thread running the kernel's step loop —
// communicate only through a pair of single-producer single-consumer byte
// channels. What a send or receive returns depends on the peer thread, so
// the wrappers below promise nothing about which outcome comes back; the
// verified callers state what holds for every outcome.
#[verifier::external_type_specification]
#[verifier::external_body]
#[verifier::reject_recursive_types(T)]
pub struct ExSender<T>(std::sync::mpsc::Sender<T>);

#[verifier::external_type_specification]
#[verifier::external_body]
#[verifier::reject_recursive_types(T)]
pub struct ExReceiver<T>(std::sync::mpsc::Receiver<T>);

/// The outcome of a blocking send: delivered, or the receiving end is gone.
#[derive(Clone, Copy, Debug, PartialEq, Eq, Structural)]
pub enum SendStatus {
    Sent,
    Closed,
}

/// The outcome of a non-blocking receive: a byte, nothing queued this
/// cycle, or the sending end is gone. An empty queue is expected
/// steady-state behaviour, distinct from a torn-down channel.
#[derive(Clone, Copy, Debug, PartialEq, Eq, Structural)]
pub enum RecvPoll {
    Byte(u8),
    Empty,
    Disconnected,
}

/// Relies on std::sync::mpsc::channel: a fresh FIFO byte channel whose two
/// endpoints can be handed to different threads.
#[verifier::external_body]
pub fn byte_channel() -> (std::sync::mpsc::Sender<u8>, std::sync::mpsc::Receiver<u8>) {
    std::sync::mpsc::channel()
}

/// Relies on std::sync::mpsc::Sender::send: queues the byte, or fails only
/// when the receiving end has been dropped; it never blocks.
#[verifier::external_body]
pub fn send_byte(tx: &std::sync::mpsc::Sender<u8>, b: u8) -> SendStatus {
    match tx.send(b) {
        Ok(()) => SendStatus::Sent,
        Err(_) => SendStatus::Closed,
    }
}

/// Relies on std::sync::mpsc::Receiver::recv: blocks until a byte arrives,
/// and returns None only when the sending end has been dropped and the
/// queue is drained.
#[verifier::external_body]
pub fn recv_byte(rx: &std::sync::mpsc::Receiver<u8>) -> Option<u8> {
    match rx.recv() {
        Ok(b) => Some(b),
        Err(_) => None,
    }
}

/// Relies on std::sync::mpsc::Receiver::try_recv: returns at once with a
/// queued byte, with Empty when nothing is queued, or with Disconnected
/// when the sending end has been dropped; it never blocks.
#[verifier::external_body]
pub fn try_recv_byte(rx: &std::sync::mpsc::Receiver<u8>) -> RecvPoll {
    match rx.try_recv() {
        Ok(b) => RecvPoll::Byte(b),
        Err(std::sync::mpsc::TryRecvError::Empty) => RecvPoll::Empty,
        Err(std::sync::mpsc::TryRecvError::Disconnected) => RecvPoll::Disconnected,
    }
}

} // verus!
