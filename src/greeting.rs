//! The greeting datagrams and what the receiver does with each poll result.
use vstd::prelude::*;
use vstd::string::StringExecFns;
use vstd::utf8::{decode_utf8, valid_utf8};
use crate::discovery::PeerAddress;

verus! {

/// How long the receiver waits when no datagram is ready, in milliseconds.
pub const IDLE_POLL_MS: u64 = 200;

/// How long the receiver backs off after a receive error, in milliseconds.
pub const ERROR_BACKOFF_MS: u64 = 1000;

/// The greeting an endpoint sends to a newly found peer.
pub open spec fn hello_text(identity: Seq<char>) -> Seq<char> {
    "hello from "@ + identity
}

/// The acknowledgement an endpoint sends back for any datagram it receives.
pub open spec fn ack_text(identity: Seq<char>) -> Seq<char> {
    "hello-ack from "@ + identity
}

/// The text that bytes are read as, each invalid sequence replaced by U+FFFD.
pub uninterp spec fn utf8_lossy_of(bytes: Seq<u8>) -> Seq<char>;

/// Relies on `String::from_utf8_lossy`: never fails; valid UTF-8 is read as
/// it stands.
#[verifier::external_body]
fn utf8_lossy(bytes: &[u8]) -> (r: String)
    ensures
        r@ == utf8_lossy_of(bytes@),
        valid_utf8(bytes@) ==> r@ == decode_utf8(bytes@),
{
    String::from_utf8_lossy(bytes).into_owned()
}

/// The payload `hello from {identity}`.
pub fn hello_payload(identity: &str) -> (r: String)
    ensures
        r@ == hello_text(identity@),
{
    let mut r = String::from_str("hello from ");
    r.append(identity);
    r
}

/// The payload `hello-ack from {identity}`.
pub fn ack_payload(identity: &str) -> (r: String)
    ensures
        r@ == ack_text(identity@),
{
    let mut r = String::from_str("hello-ack from ");
    r.append(identity);
    r
}

/// Reads a received payload as text; invalid byte sequences are replaced,
/// never refused.
pub fn decode_payload(bytes: &[u8]) -> (r: String)
    ensures
        r@ == utf8_lossy_of(bytes@),
        valid_utf8(bytes@) ==> r@ == decode_utf8(bytes@),
{
    utf8_lossy(bytes)
}

/// What one non-blocking poll of the endpoint gave.
#[derive(Debug, Clone, PartialEq, Eq)]
pub enum ReceiveEvent {
    /// A datagram arrived from `from`.
    Datagram { from: PeerAddress, payload: Vec<u8> },
    /// No datagram was ready.
    NoData,
    /// The receive failed for another reason.
    Failed,
}

/// What the receiver does next.
#[derive(Debug, Clone, PartialEq, Eq)]
pub enum ReceiverAction {
    /// Send `ack` to `to`; `text` is the received payload, for the log.
    Reply { to: PeerAddress, text: String, ack: String },
    /// Sleep this long before polling again.
    Wait { millis: u64 },
}

/// One step of the receiver: a datagram from any source is answered with an
/// acknowledgement to that source, whatever its bytes; with nothing ready it
/// waits briefly, and after an error it backs off longer. It never stops.
pub fn on_receive(identity: &str, event: &ReceiveEvent) -> (r: ReceiverAction)
    ensures
        match *event {
            ReceiveEvent::Datagram { from, payload } => r matches ReceiverAction::Reply {
                to,
                text,
                ack,
            } && to == from && text@ == utf8_lossy_of(payload@) && ack@ == ack_text(identity@),
            ReceiveEvent::NoData => r == ReceiverAction::Wait { millis: IDLE_POLL_MS },
            ReceiveEvent::Failed => r == ReceiverAction::Wait { millis: ERROR_BACKOFF_MS },
        },
{
    match event {
        ReceiveEvent::Datagram { from, payload } => ReceiverAction::Reply {
            to: *from,
            text: decode_payload(payload.as_slice()),
            ack: ack_payload(identity),
        },
        ReceiveEvent::NoData => ReceiverAction::Wait { millis: IDLE_POLL_MS },
        ReceiveEvent::Failed => ReceiverAction::Wait { millis: ERROR_BACKOFF_MS },
    }
}

} // verus!
