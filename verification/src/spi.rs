use vstd::prelude::*;

use crate::channel::{recv_byte, send_byte, SendStatus};

verus! {

/// A transfer that failed at exchange step `k` leaves the not-yet-exchanged
/// suffix of the buffer exactly as it was.
pub open spec fn suffix_unchanged(pre: Seq<u8>, post: Seq<u8>, k: int) -> bool {
    forall|j: int| k <= j < pre.len() ==> post[j] == pre[j]
}

/// The serial master's failure mode: one of the two rendezvous channels was
/// torn down before every byte was exchanged.
#[derive(Clone, Copy, Debug, PartialEq, Eq, Structural)]
pub enum SpiError {
    ChannelClosed,
}

/// A blocking full-duplex serial transfer port: each word is sent in order
/// and replaced in place by the word received for it. Users supply the
/// transport — the simulated bridge below, or a real hardware master.
pub trait SpiTransfer {
    type TransferError;

    /// Exchanges every word of `words` in order. On failure the words not
    /// yet exchanged keep their previous value: partial completion is
    /// observable, never rolled back.
    fn transfer(&mut self, words: &mut Vec<u8>) -> (r: Result<(), Self::TransferError>)
        ensures
            final(words)@.len() == old(words)@.len(),
            r is Err ==> exists|k: int|
                0 <= k <= old(words)@.len() && #[trigger] suffix_unchanged(
                    old(words)@,
                    final(words)@,
                    k,
                ),
    ;
}

/// The software side of the cosimulation bridge: a serial master that
/// exchanges one byte at a time with the simulated peripheral through the
/// two rendezvous channels.
pub struct SimSpiMaster {
    mosi: std::sync::mpsc::Sender<u8>,
    miso: std::sync::mpsc::Receiver<u8>,
}

impl SimSpiMaster {
    /// The sender of the master-to-peripheral direction this master owns.
    pub closed spec fn spec_mosi(self) -> std::sync::mpsc::Sender<u8> {
        self.mosi
    }

    /// The receiver of the peripheral-to-master direction this master owns.
    pub closed spec fn spec_miso(self) -> std::sync::mpsc::Receiver<u8> {
        self.miso
    }

    /// Builds the master from its two channel endpoints: the sender of the
    /// master-to-peripheral direction and the receiver of the
    /// peripheral-to-master direction. Construction only takes ownership of
    /// the endpoints; nothing is exchanged yet.
    pub fn new(mosi: std::sync::mpsc::Sender<u8>, miso: std::sync::mpsc::Receiver<u8>) -> (r:
        SimSpiMaster)
        ensures
            r.spec_mosi() == mosi,
            r.spec_miso() == miso,
    {
        SimSpiMaster { mosi, miso }
    }
}

impl SpiTransfer for SimSpiMaster {
    type TransferError = SpiError;

    /// For each byte in order: send it to the peripheral, then block until
    /// the peripheral's reply arrives and overwrite the slot with it. The
    /// first failed send or receive reports the channel as closed; bytes
    /// already exchanged stay overwritten, the rest of the buffer is left
    /// untouched.
    fn transfer(&mut self, words: &mut Vec<u8>) -> (r: Result<(), SpiError>)
        ensures
            final(words)@.len() == old(words)@.len(),
            // an empty buffer reaches no channel and always succeeds
            old(words)@.len() == 0 ==> r is Ok,
            r is Err ==> r == Result::<(), SpiError>::Err(SpiError::ChannelClosed) && exists|
                k: int,
            |
                0 <= k <= old(words)@.len() && #[trigger] suffix_unchanged(
                    old(words)@,
                    final(words)@,
                    k,
                ),
    {
        let n = words.len();
        let mut i: usize = 0;
        while i < n
            invariant
                i <= n,
                n == words@.len(),
                words@.len() == old(words)@.len(),
                forall|j: int| i <= j < n ==> words@[j] == old(words)@[j],
            decreases n - i,
        {
            match send_byte(&self.mosi, words[i]) {
                SendStatus::Closed => {
                    proof {
                        assert(suffix_unchanged(old(words)@, words@, i as int));
                    }
                    return Err(SpiError::ChannelClosed);
                },
                SendStatus::Sent => {},
            }
            match recv_byte(&self.miso) {
                None => {
                    proof {
                        assert(suffix_unchanged(old(words)@, words@, i as int));
                    }
                    return Err(SpiError::ChannelClosed);
                },
                Some(reply) => {
                    words.set(i, reply);
                },
            }
            i += 1;
        }
        Ok(())
    }
}

} // verus!
