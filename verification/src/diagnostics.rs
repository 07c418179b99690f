//! Framing of diagnostic lines for the serial log. Logging is fire and
//! forget: nothing in the protocol waits for it.
use vstd::prelude::*;

verus! {

/// Longest message that fits a line of the log.
pub const LINE_CAPACITY: usize = 256;

/// Carriage return.
pub const CR: u8 = 0x0d;

/// Line feed.
pub const LF: u8 = 0x0a;

/// Seconds of silence after which a heartbeat is written.
pub const HEARTBEAT_SECS: u64 = 5;

/// How a write to the serial endpoint went.
#[derive(Clone, Copy, Debug, PartialEq, Eq, Structural)]
pub enum WriteOutcome {
    /// The packet went out.
    Written,
    /// The packet did not fit the endpoint's buffer.
    BufferOverflow,
    /// The endpoint is disabled: the host is gone.
    Disabled,
}

/// How the logger goes on after a write.
#[derive(Clone, Copy, Debug, PartialEq, Eq, Structural)]
pub enum LoggerMove {
    /// Wait for the next message.
    Continue,
    /// Wait for a host to connect again.
    AwaitConnection,
}

/// Whether a message fits a line of the log.
pub open spec fn fits_line(message: Seq<u8>) -> bool {
    message.len() <= LINE_CAPACITY
}

/// The packet of a message: what fits of it, then carriage return and line
/// feed.
pub open spec fn packet_bytes(message: Seq<u8>) -> Seq<u8> {
    if fits_line(message) {
        message + seq![CR, LF]
    } else {
        message.subrange(0, LINE_CAPACITY as int) + seq![CR, LF]
    }
}

/// The packet written when no message came in time.
pub open spec fn heartbeat_bytes() -> Seq<u8> {
    seq![0x31u8, CR, LF]
}

/// Whether `message` is taken into the log's queue. A longer one is
/// dropped.
pub fn accepts_line(message: &[u8]) -> (accepted: bool)
    ensures
        accepted == fits_line(message@),
{
    message.len() <= LINE_CAPACITY
}

/// Frames `message` as one packet: at most `LINE_CAPACITY` bytes of it,
/// closed by carriage return and line feed.
pub fn line_packet(message: &[u8]) -> (packet: Vec<u8>)
    ensures
        packet@ == packet_bytes(message@),
{
    let length: usize = if message.len() <= LINE_CAPACITY {
        message.len()
    } else {
        LINE_CAPACITY
    };
    let mut packet: Vec<u8> = Vec::new();
    let mut index: usize = 0;
    while index < length
        invariant
            index <= length <= message@.len(),
            packet@ == message@.subrange(0, index as int),
        decreases length - index,
    {
        packet.push(message[index]);
        index += 1;
        assert(packet@ =~= message@.subrange(0, index as int));
    }
    packet.push(CR);
    packet.push(LF);
    assert(message@.subrange(0, message@.len() as int) =~= message@);
    assert(packet@ =~= packet_bytes(message@));
    packet
}

/// The heartbeat packet: the digit one, carriage return, line feed.
pub fn heartbeat() -> (packet: [u8; 3])
    ensures
        packet@ == heartbeat_bytes(),
{
    let packet: [u8; 3] = [0x31, CR, LF];
    assert(packet@ =~= heartbeat_bytes());
    packet
}

/// How the logger goes on after a write: only a disabled endpoint sends it
/// back to waiting for a host. A packet that did not fit is lost and the
/// logger carries on.
pub fn after_write(outcome: WriteOutcome) -> (next: LoggerMove)
    ensures
        next == if outcome == WriteOutcome::Disabled {
            LoggerMove::AwaitConnection
        } else {
            LoggerMove::Continue
        },
{
    match outcome {
        WriteOutcome::Disabled => LoggerMove::AwaitConnection,
        _ => LoggerMove::Continue,
    }
}

} // verus!
