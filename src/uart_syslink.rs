//! Receive side of the serial link between the main processor and the radio processor.
//!
//! Bytes arrive one at a time from a non-blocking read. Each accepted byte is appended to a
//! bounded receive buffer, the buffer is handed to the packet codec, and the codec's verdict
//! decides what is dropped from the front of the buffer and what is returned.
use vstd::prelude::*;

verus! {

/// Number of bytes the receive buffer can hold.
pub const RECV_BUFF_CAP: usize = 70;

/// Fixed-capacity store behind the receive buffer.
pub type RecvBuff = heapless::Vec<u8, RECV_BUFF_CAP>;

/// Declares heapless::Vec as an opaque type; what one holds is named by `buff_contents`.
#[verifier::external_type_specification]
#[verifier::external_body]
#[verifier::reject_recursive_types(T)]
pub struct ExHeaplessVec<T, const N: usize>(heapless::Vec<T, N>);

/// The bytes held by a receive store, front first.
pub uninterp spec fn buff_contents(v: heapless::Vec<u8, RECV_BUFF_CAP>) -> Seq<u8>;

/// Relies on heapless::Vec::new: the new vector is empty.
#[verifier::external_body]
fn buff_new() -> (r: RecvBuff)
    ensures
        buff_contents(r) == Seq::<u8>::empty(),
{
    heapless::Vec::new()
}

/// Relies on heapless::Vec::push: appends the item when the length is below the capacity,
/// otherwise hands it back and leaves the vector as it was. It never panics.
#[verifier::external_body]
fn buff_push(v: &mut RecvBuff, b: u8) -> (r: Result<(), u8>)
    ensures
        buff_contents(*old(v)).len() < RECV_BUFF_CAP ==> r is Ok,
        buff_contents(*old(v)).len() >= RECV_BUFF_CAP ==> r is Err && r->Err_0 == b,
        r is Ok ==> buff_contents(*final(v)) == buff_contents(*old(v)).push(b),
        r is Err ==> buff_contents(*final(v)) == buff_contents(*old(v)),
    no_unwind
{
    v.push(b)
}

/// Relies on heapless::Vec::clear: the vector is left empty; dropping bytes never panics.
#[verifier::external_body]
fn buff_clear(v: &mut RecvBuff)
    ensures
        buff_contents(*final(v)) == Seq::<u8>::empty(),
    no_unwind
{
    v.clear()
}

/// Relies on heapless::Vec::as_slice: the slice holds the vector's items in order.
#[verifier::external_body]
fn buff_as_slice(v: &RecvBuff) -> (r: &[u8])
    ensures
        r@ == buff_contents(*v),
{
    v.as_slice()
}

/// Kind of malformed frame that the packet codec reports.
#[derive(Clone, Copy, Debug, PartialEq, Eq, Structural)]
pub enum ParseErrorKind {
    /// The first byte cannot start a frame.
    WrongTag,
    /// The frame header announces more data than a frame may carry.
    TooMuchData,
    /// The frame is complete but its checksum does not match.
    WrongChecksum,
}

/// Verdict of the packet codec on the bytes at the front of the receive buffer.
pub enum ParseOutcome<P> {
    /// A whole, valid frame fills the first `consumed` bytes and decodes to the packet.
    Complete(usize, P),
    /// The bytes may still become a frame: more are needed.
    Incomplete,
    /// The bytes cannot become a valid frame: the given number of leading bytes must go.
    Malformed(ParseErrorKind, usize),
}

/// What the syslink codec reports on the buffered bytes, in its own terms.
pub enum SyslinkParse<P> {
    /// A packet was parsed; the given number of bytes is left after its frame.
    Packet(usize, P),
    /// The bytes are the start of a frame; more are needed.
    Incomplete,
    /// The first byte does not start a frame.
    WrongTag,
    /// The header announces too much data; the given number of bytes must go.
    TooMuchData(usize),
    /// The checksum does not match; the given number of bytes must go.
    WrongChecksum(usize),
}

/// The verdict that a syslink report on `held` buffered bytes stands for: a parsed packet
/// consumed everything but the bytes left after it, and a wrong start byte costs one byte.
pub open spec fn syslink_outcome<P>(report: SyslinkParse<P>, held: usize) -> ParseOutcome<P> {
    match report {
        SyslinkParse::Packet(left, packet) => ParseOutcome::Complete(
            (held - left) as usize,
            packet,
        ),
        SyslinkParse::Incomplete => ParseOutcome::Incomplete,
        SyslinkParse::WrongTag => ParseOutcome::Malformed(ParseErrorKind::WrongTag, 1),
        SyslinkParse::TooMuchData(n) => ParseOutcome::Malformed(ParseErrorKind::TooMuchData, n),
        SyslinkParse::WrongChecksum(n) => ParseOutcome::Malformed(ParseErrorKind::WrongChecksum, n),
    }
}

impl<P> SyslinkParse<P> {
    /// The verdict this report stands for on `held` buffered bytes; the bytes left after a
    /// parsed packet are a tail of the buffer, so there are at most `held` of them.
    pub fn into_outcome(self, held: usize) -> (r: ParseOutcome<P>)
        requires
            self matches SyslinkParse::Packet(left, _) ==> left <= held,
        ensures
            r == syslink_outcome(self, held),
    {
        match self {
            SyslinkParse::Packet(left, packet) => ParseOutcome::Complete(held - left, packet),
            SyslinkParse::Incomplete => ParseOutcome::Incomplete,
            SyslinkParse::WrongTag => ParseOutcome::Malformed(ParseErrorKind::WrongTag, 1),
            SyslinkParse::TooMuchData(n) => ParseOutcome::Malformed(ParseErrorKind::TooMuchData, n),
            SyslinkParse::WrongChecksum(n) => ParseOutcome::Malformed(
                ParseErrorKind::WrongChecksum,
                n,
            ),
        }
    }
}

/// Fault reported by the UART peripheral on a read.
#[derive(Clone, Copy, Debug, PartialEq, Eq, Structural)]
pub enum UartError {
    Framing,
    Noise,
    Overrun,
    Parity,
}

/// What one non-blocking read of the UART gave.
#[derive(Clone, Copy, Debug, PartialEq, Eq, Structural)]
pub enum ReadResult {
    /// A byte arrived.
    Byte(u8),
    /// No byte was ready.
    NotReady,
    /// The peripheral reported a fault.
    Failed(UartError),
}

/// Why no packet was returned by a receive step.
#[derive(Clone, Copy, Debug, PartialEq, Eq, Structural)]
pub enum RecvError {
    /// Nothing to return yet: no byte arrived, or the buffered bytes are a partial frame.
    WouldBlock,
    /// The buffered bytes were malformed; the bytes the codec asked to drop are gone already.
    Syslink(ParseErrorKind),
    /// The UART reported a fault.
    Uart(UartError),
    /// The receive buffer is full; it takes `empty_buffer` before another byte fits.
    ReceiveBufferFull,
}

/// `s` without its first `n` items; empty when `n` reaches past the end.
pub open spec fn drop_front(s: Seq<u8>, n: int) -> Seq<u8> {
    if n < s.len() {
        s.subrange(n, s.len() as int)
    } else {
        Seq::empty()
    }
}

/// Buffer contents after the codec's verdict has been applied to `s`.
pub open spec fn after_parse<P>(s: Seq<u8>, outcome: ParseOutcome<P>) -> Seq<u8> {
    match outcome {
        ParseOutcome::Complete(consumed, _) => drop_front(s, consumed as int),
        ParseOutcome::Incomplete => s,
        ParseOutcome::Malformed(_, discard) => drop_front(s, discard as int),
    }
}

/// What a receive step returns for the codec's verdict.
pub open spec fn parse_result<P>(outcome: ParseOutcome<P>) -> Result<P, RecvError> {
    match outcome {
        ParseOutcome::Complete(_, packet) => Ok(packet),
        ParseOutcome::Incomplete => Err(RecvError::WouldBlock),
        ParseOutcome::Malformed(kind, _) => Err(RecvError::Syslink(kind)),
    }
}

/// Buffer contents after a read result has been taken in by a receive step on `s`.
pub open spec fn after_read(s: Seq<u8>, read: ReadResult) -> Seq<u8> {
    match read {
        ReadResult::Byte(b) => if s.len() < RECV_BUFF_CAP {
            s.push(b)
        } else {
            s
        },
        _ => s,
    }
}

/// What taking in a read result on buffer contents `s` returns.
pub open spec fn read_result(s: Seq<u8>, read: ReadResult) -> Result<(), RecvError> {
    match read {
        ReadResult::Byte(_) => if s.len() < RECV_BUFF_CAP {
            Ok(())
        } else {
            Err(RecvError::ReceiveBufferFull)
        },
        ReadResult::NotReady => Err(RecvError::WouldBlock),
        ReadResult::Failed(e) => Err(RecvError::Uart(e)),
    }
}

/// Buffer contents after each of `bytes` has arrived in turn on contents `s`.
pub open spec fn after_bytes(s: Seq<u8>, bytes: Seq<u8>) -> Seq<u8>
    decreases bytes.len(),
{
    if bytes.len() == 0 {
        s
    } else {
        after_bytes(after_read(s, ReadResult::Byte(bytes[0])), bytes.drop_first())
    }
}

/// Bytes that arrive one at a time never grow the receive buffer past its capacity, and the
/// buffer then holds the old contents followed by exactly the arrivals that fitted, in order:
/// a byte is left out only when its push was refused because the buffer was full.
pub proof fn lemma_pushes_bounded(s: Seq<u8>, bytes: Seq<u8>)
    requires
        s.len() <= RECV_BUFF_CAP,
    ensures
        after_bytes(s, bytes).len() <= RECV_BUFF_CAP,
        bytes.len() + s.len() <= RECV_BUFF_CAP ==> after_bytes(s, bytes) == s + bytes,
        bytes.len() + s.len() > RECV_BUFF_CAP ==> after_bytes(s, bytes) == s + bytes.take(
            RECV_BUFF_CAP - s.len(),
        ),
    decreases bytes.len(),
{
    if bytes.len() > 0 {
        let next = after_read(s, ReadResult::Byte(bytes[0]));
        lemma_pushes_bounded(next, bytes.drop_first());
        if s.len() < RECV_BUFF_CAP {
            assert(s + bytes =~= next + bytes.drop_first());
            if bytes.len() + s.len() > RECV_BUFF_CAP {
                assert(s + bytes.take(RECV_BUFF_CAP - s.len()) =~= next + bytes.drop_first().take(
                    RECV_BUFF_CAP - next.len(),
                ));
            }
        } else {
            assert(bytes.take(0) =~= Seq::<u8>::empty());
            assert(s + bytes.take(RECV_BUFF_CAP - s.len()) =~= s);
            assert(bytes.drop_first().take(0) =~= Seq::<u8>::empty());
        }
    } else {
        assert(s + bytes =~= s);
    }
}

/// After a malformed frame exactly `min(discard, s.len())` leading bytes are gone and the
/// rest is kept in order, so no later parse sees the dropped bytes again; whenever the codec
/// asks for a discard and bytes are buffered, the buffer shrinks.
pub proof fn lemma_malformed_discard<P>(s: Seq<u8>, kind: ParseErrorKind, discard: usize)
    ensures
        ({
            let gone = if discard < s.len() {
                discard as int
            } else {
                s.len() as int
            };
            &&& after_parse(s, ParseOutcome::<P>::Malformed(kind, discard)) == s.subrange(gone, s.len() as int)
            &&& after_parse(s, ParseOutcome::<P>::Malformed(kind, discard)).len() == s.len() - gone
        }),
        discard > 0 && s.len() > 0 ==> after_parse(s, ParseOutcome::<P>::Malformed(kind, discard)).len() < s.len(),
{
    if discard >= s.len() {
        assert(s.subrange(s.len() as int, s.len() as int) =~= Seq::<u8>::empty());
    }
}

/// Receive side of the link to the radio processor: the bytes received so far that have not
/// yet been consumed by a packet or dropped as malformed.
pub struct UartComm {
    recv_buff: RecvBuff,
}

impl View for UartComm {
    type V = Seq<u8>;

    closed spec fn view(&self) -> Seq<u8> {
        buff_contents(self.recv_buff)
    }
}

impl UartComm {
    #[verifier::type_invariant]
    spec fn inv(self) -> bool {
        buff_contents(self.recv_buff).len() <= RECV_BUFF_CAP
    }

    /// A channel with an empty receive buffer.
    pub fn new() -> (r: Self)
        ensures
            r@ == Seq::<u8>::empty(),
    {
        UartComm { recv_buff: buff_new() }
    }

    /// The buffered bytes, front first, as the packet codec should see them.
    pub fn buffer(&self) -> (r: &[u8])
        ensures
            r@ == self@,
            r@.len() <= RECV_BUFF_CAP,
    {
        proof {
            use_type_invariant(self);
        }
        buff_as_slice(&self.recv_buff)
    }

    /// First half of a receive step: takes in the result of one non-blocking read.
    ///
    /// A byte is appended to the receive buffer when it fits, and `Ok` says that the codec
    /// should now be run on the buffer. Otherwise the buffer is left as it was and the error
    /// is returned: `WouldBlock` when no byte was ready, `Uart` on a fault,
    /// `ReceiveBufferFull` when the byte did not fit.
    pub fn push_read(&mut self, read: ReadResult) -> (r: Result<(), RecvError>)
        ensures
            r == read_result(old(self)@, read),
            final(self)@ == after_read(old(self)@, read),
            final(self)@.len() <= RECV_BUFF_CAP,
    {
        proof {
            use_type_invariant(&*self);
        }
        match read {
            ReadResult::Byte(b) => {
                let pushed = buff_push(&mut self.recv_buff, b);
                match pushed {
                    Ok(()) => Ok(()),
                    Err(_) => Err(RecvError::ReceiveBufferFull),
                }
            },
            ReadResult::NotReady => Err(RecvError::WouldBlock),
            ReadResult::Failed(e) => Err(RecvError::Uart(e)),
        }
    }

    /// Second half of a receive step: applies the codec's verdict on the buffered bytes.
    ///
    /// A complete frame is dropped from the front and its packet returned. A partial frame
    /// leaves the buffer as it is and gives `WouldBlock`. A malformed frame has the number of
    /// leading bytes the codec named dropped (all of them if fewer are buffered) before the
    /// error is returned.
    pub fn handle_parse<P>(&mut self, outcome: ParseOutcome<P>) -> (r: Result<P, RecvError>)
        ensures
            r == parse_result(outcome),
            final(self)@ == after_parse(old(self)@, outcome),
            final(self)@.len() <= RECV_BUFF_CAP,
    {
        proof {
            use_type_invariant(&*self);
        }
        match outcome {
            ParseOutcome::Complete(consumed, packet) => {
                self.truncate_first(consumed);
                Ok(packet)
            },
            ParseOutcome::Incomplete => Err(RecvError::WouldBlock),
            ParseOutcome::Malformed(kind, discard) => {
                self.truncate_first(discard);
                Err(RecvError::Syslink(kind))
            },
        }
    }

    /// Removes the first `bytes` bytes from the receive buffer, or all of them when fewer
    /// are held, keeping the rest in order.
    fn truncate_first(&mut self, bytes: usize)
        ensures
            final(self)@ == drop_front(old(self)@, bytes as int),
            final(self)@.len() <= RECV_BUFF_CAP,
    {
        proof {
            use_type_invariant(&*self);
        }
        let kept = buff_as_slice(&self.recv_buff);
        let n = kept.len();
        let start: usize = if bytes < n {
            bytes
        } else {
            n
        };
        let mut rest = buff_new();
        let mut i: usize = start;
        while i < n
            invariant
                start <= i <= n,
                n == kept@.len(),
                n <= RECV_BUFF_CAP,
                buff_contents(rest) == kept@.subrange(start as int, i as int),
            decreases n - i,
        {
            let pushed = buff_push(&mut rest, kept[i]);
            proof {
                assert(pushed is Ok);
                assert(kept@.subrange(start as int, i + 1) == kept@.subrange(
                    start as int,
                    i as int,
                ).push(kept@[i as int]));
            }
            i = i + 1;
        }
        proof {
            assert(drop_front(kept@, bytes as int) == kept@.subrange(start as int, n as int));
        }
        self.recv_buff = rest;
    }

    /// Drops every buffered byte; the way back after `ReceiveBufferFull`.
    pub fn empty_buffer(&mut self)
        ensures
            final(self)@ == Seq::<u8>::empty(),
    {
        buff_clear(&mut self.recv_buff);
    }
}

} // verus!
