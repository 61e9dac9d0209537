use vstd::prelude::*;

verus! {

/// FRAM address the test client writes and reads back.
pub const TEST_ADDRESS: u16 = 8;

/// Number of bytes the test client writes and reads back.
pub const TEST_LEN: u16 = 4;

/// A request the test client makes of the FM25CL driver, with the buffer it
/// hands over.
#[derive(Debug, PartialEq, Eq)]
pub enum FramRequest<B> {
    Write { address: u16, buffer: B, len: u16 },
    Read { address: u16, buffer: B, len: u16 },
}

/// The callbacks the FM25CL driver delivers to its client.
#[derive(Clone, Copy, Debug, PartialEq, Eq, Structural)]
pub enum FramEvent {
    /// The status register was read.
    Status,
    /// Data was read.
    ReadDone,
    /// A write finished.
    WriteDone,
}

/// Client of the FM25CL FRAM that, once the status register has been read,
/// writes its test buffer to the FRAM and reads the bytes back after each
/// finished write.
pub struct TestFm<B> {
    txtest: Option<B>,
}

impl<B> TestFm<B> {
    /// The test buffer the client still holds, if it has not written it yet.
    pub closed spec fn tx_buffer(&self) -> Option<B> {
        self.txtest
    }

    /// A client holding `txtest`.
    pub fn new(txtest: B) -> (client: Self)
        ensures
            client.tx_buffer() == Some(txtest),
    {
        TestFm { txtest: Some(txtest) }
    }

    /// Status register read: hands the test buffer over for a write of
    /// `TEST_LEN` bytes at `TEST_ADDRESS`, the first time only.
    pub fn status(&mut self, _status: u8) -> (request: Option<FramRequest<B>>)
        ensures
            final(self).tx_buffer() is None,
            request == (match old(self).tx_buffer() {
                Some(buffer) => Some(
                    FramRequest::Write { address: TEST_ADDRESS, buffer, len: TEST_LEN },
                ),
                None => None,
            }),
    {
        match self.txtest.take() {
            Some(buffer) => Some(FramRequest::Write { address: TEST_ADDRESS, buffer, len: TEST_LEN }),
            None => None,
        }
    }

    /// Write finished: reads `TEST_LEN` bytes back from `TEST_ADDRESS` into
    /// the buffer the driver returned.
    pub fn done(&self, buffer: B) -> (request: FramRequest<B>)
        ensures
            request == (FramRequest::Read { address: TEST_ADDRESS, buffer, len: TEST_LEN }),
    {
        FramRequest::Read { address: TEST_ADDRESS, buffer, len: TEST_LEN }
    }
}

/// The test writes four bytes at FRAM address 8 and reads back the same four
/// bytes from the same address.
pub proof fn lemma_test_transfer()
    ensures
        TEST_ADDRESS == 8,
        TEST_LEN == 4,
{
}

/// How many writes a client issues over `events`, starting with or without
/// its test buffer, as `status` and `done` state it.
pub open spec fn writes_in_run(holds_buffer: bool, events: Seq<FramEvent>) -> nat
    decreases events.len(),
{
    if events.len() == 0 {
        0
    } else {
        let rest = events.drop_first();
        match events[0] {
            FramEvent::Status => (if holds_buffer {
                1nat
            } else {
                0nat
            }) + writes_in_run(false, rest),
            _ => writes_in_run(holds_buffer, rest),
        }
    }
}

/// Whatever the driver delivers, the test client writes to the FRAM at most
/// once, and never once it has given its buffer away.
pub proof fn lemma_at_most_one_write(holds_buffer: bool, events: Seq<FramEvent>)
    ensures
        writes_in_run(holds_buffer, events) <= 1,
        !holds_buffer ==> writes_in_run(holds_buffer, events) == 0,
    decreases events.len(),
{
    if events.len() > 0 {
        lemma_at_most_one_write(false, events.drop_first());
        lemma_at_most_one_write(holds_buffer, events.drop_first());
    }
}

} // verus!
