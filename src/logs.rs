use vstd::prelude::*;
use vstd::slice::slice_to_vec;
use vstd::utf8::{decode_utf8, valid_utf8};
use tokio::sync::broadcast::{Receiver, Sender};

verus! {

#[verifier::external_type_specification]
#[verifier::external_body]
#[verifier::reject_recursive_types(T)]
pub struct ExLogSender<T>(Sender<T>);

#[verifier::external_type_specification]
#[verifier::external_body]
#[verifier::reject_recursive_types(T)]
pub struct ExLogReceiver<T>(Receiver<T>);

/// Number of entries a log broadcaster holds for subscribers that lag behind.
pub const LOG_CAPACITY: usize = 1000;

/// Most bytes the log forwarder takes from the pipe in one read.
pub const READ_CHUNK: usize = 1024;

/// Relies on tokio::sync::broadcast::channel: makes a bounded broadcast
/// channel and keeps its sending half. It panics on a capacity of zero or
/// above `usize::MAX / 2`.
#[verifier::external_body]
pub(crate) fn open_log_channel(capacity: usize) -> Sender<String>
    requires
        0 < capacity <= usize::MAX / 2,
{
    tokio::sync::broadcast::channel(capacity).0
}

/// Relies on tokio::sync::broadcast::Sender::send: queues the entry for every
/// current subscriber, never waiting; it reports whether any subscriber exists.
#[verifier::external_body]
pub(crate) fn publish(sender: &Sender<String>, entry: String) -> bool {
    sender.send(entry).is_ok()
}

/// Relies on tokio::sync::broadcast::Sender::subscribe: a receiver of the
/// entries sent from now on.
#[verifier::external_body]
pub(crate) fn subscribe(sender: &Sender<String>) -> Receiver<String> {
    sender.subscribe()
}

/// Relies on String::from_utf8: the bytes as text exactly when they are valid
/// UTF-8.
#[verifier::external_body]
fn utf8_text(bytes: Vec<u8>) -> (r: Option<String>)
    ensures
        r is Some <==> valid_utf8(bytes@),
        r matches Some(s) ==> s@ == decode_utf8(bytes@),
{
    String::from_utf8(bytes).ok()
}

/// What the log forwarder did with one read from a container's pipe.
#[derive(Clone, Copy, Debug, PartialEq, Eq, Structural)]
pub enum Forwarded {
    /// The pipe reached end of file: the forwarder stops.
    EndOfStream,
    /// The chunk was valid UTF-8 and went to the broadcaster.
    Published,
    /// The chunk was not valid UTF-8 and was dropped.
    Dropped,
}

/// Handles one read of the log forwarder: `chunk` holds the bytes read, an
/// empty chunk meaning end of file. Valid UTF-8 is broadcast as one entry,
/// anything else is dropped; a broadcast with no subscriber still counts as
/// published.
pub fn forward_chunk(sender: &Sender<String>, chunk: &[u8]) -> (r: Forwarded)
    ensures
        chunk@.len() == 0 ==> r == Forwarded::EndOfStream,
        chunk@.len() > 0 && valid_utf8(chunk@) ==> r == Forwarded::Published,
        chunk@.len() > 0 && !valid_utf8(chunk@) ==> r == Forwarded::Dropped,
{
    if chunk.len() == 0 {
        return Forwarded::EndOfStream;
    }
    match log_entry(chunk) {
        Some(text) => {
            let _ = publish(sender, text);
            Forwarded::Published
        },
        None => Forwarded::Dropped,
    }
}

/// Decodes one chunk read from a container's pipe into the log entry it
/// becomes, if it is valid UTF-8.
pub fn log_entry(chunk: &[u8]) -> (r: Option<String>)
    ensures
        r is Some <==> valid_utf8(chunk@),
        r matches Some(s) ==> s@ == decode_utf8(chunk@),
{
    utf8_text(slice_to_vec(chunk))
}

} // verus!
