//! The bridge between the device driver's thread and the simulation.
//!
//! The driver's callback runs on a thread of its own and must never wait. It holds a
//! [`MidiInputSender`] and pushes messages into an unbounded channel; the simulation
//! holds the [`MidiInputReader`] and takes out, once per tick, what has arrived so far.
//! What the channel holds at any moment depends on the other thread, so nothing is
//! claimed of which message a receive returns. What the reader does with the messages
//! is stated over the record of what it has taken out so far: every message that
//! leaves the channel is handed on once, in the order in which it left.

use crate::midi::{broadcasts, frame_event, MidiInputKey, MidiInputState, MidiResponse};
use crossbeam_channel::{Receiver, Sender};
use vstd::prelude::*;

verus! {

/// `crossbeam_channel::Sender`, the sending end of a channel, as an opaque type: nothing
/// is known of what it holds.
#[verifier::external_type_specification]
#[verifier::external_body]
#[verifier::reject_recursive_types(T)]
pub struct ExSender<T>(crossbeam_channel::Sender<T>);

/// `crossbeam_channel::Receiver`, the receiving end of a channel, as an opaque type:
/// nothing is known of what it holds.
#[verifier::external_type_specification]
#[verifier::external_body]
#[verifier::reject_recursive_types(T)]
pub struct ExReceiver<T>(crossbeam_channel::Receiver<T>);

/// Calls `crossbeam_channel::unbounded` and returns the two ends of the new channel.
/// Nothing is claimed of them.
#[verifier::external_body]
fn open_channel() -> (ends: (Sender<MidiResponse>, Receiver<MidiResponse>)) {
    crossbeam_channel::unbounded()
}

/// Calls `Sender::clone`: a second handle on the same channel. Nothing is claimed of it.
#[verifier::external_body]
fn clone_sender(sender: &Sender<MidiResponse>) -> (handle: Sender<MidiResponse>) {
    sender.clone()
}

/// Calls `Sender::send`, which on an unbounded channel returns at once, and tells whether
/// the channel took the message. It refuses when every receiver is gone; which of the two
/// happens is not claimed.
#[verifier::external_body]
fn channel_send(sender: &Sender<MidiResponse>, message: MidiResponse) -> (taken: bool) {
    sender.send(message).is_ok()
}

/// Calls `Receiver::try_recv`, which never waits: the oldest message in the channel, or
/// `None` when the channel is empty or closed. Which message comes, if any, is not claimed.
#[verifier::external_body]
fn channel_try_recv(receiver: &Receiver<MidiResponse>) -> (message: Option<MidiResponse>) {
    receiver.try_recv().ok()
}

/// Calls `Receiver::len`: the number of messages in the channel at this moment. Nothing
/// is claimed of it, since the other thread may send at any time.
#[verifier::external_body]
fn channel_len(receiver: &Receiver<MidiResponse>) -> (pending: usize) {
    receiver.len()
}

/// The sending end of the bridge, for the driver's thread.
pub struct MidiInputSender {
    sender: Sender<MidiResponse>,
}

impl MidiInputSender {
    /// Hands a message to the simulation. Never waits. A message for a simulation that is
    /// gone is dropped.
    pub fn send(&self, message: MidiResponse) {
        let _ = channel_send(&self.sender, message);
    }

    /// The driver's callback: reads a raw frame and sends the key event that it
    /// carries. Returns the event that was sent; a frame too short to carry one is
    /// discarded and nothing is sent.
    pub fn forward_frame(&self, stamp: u64, message: &[u8]) -> (sent: Option<MidiInputKey>)
        ensures
            sent == frame_event(stamp, message@),
    {
        let key = MidiInputKey::from_frame(stamp, message);
        match key {
            Some(input) => {
                self.send(MidiResponse::Input(input));
            },
            None => {},
        }
        key
    }
}

/// Both ends of the bridge, owned by the simulation.
pub struct MidiInputReader {
    receiver: Receiver<MidiResponse>,
    sender: Sender<MidiResponse>,
    taken: Ghost<Seq<MidiResponse>>,
}

/// What one tick took out of the bridge.
pub struct SyncedKeys {
    /// Every message that was taken out, in the order of arrival.
    pub messages: Vec<MidiResponse>,
    /// The key events among them, for the consumers of this tick.
    pub events: Vec<MidiInputKey>,
}

impl MidiInputReader {
    /// Every message that has been taken out of the bridge so far, oldest first.
    pub closed spec fn taken(&self) -> Seq<MidiResponse> {
        self.taken@
    }

    /// Opens a new bridge, out of which nothing has been taken yet.
    pub fn new() -> (reader: MidiInputReader)
        ensures
            reader.taken() == Seq::<MidiResponse>::empty(),
    {
        let (sender, receiver) = open_channel();
        MidiInputReader { receiver, sender, taken: Ghost(Seq::empty()) }
    }

    /// A sending end for the driver's thread.
    pub fn sender(&self) -> (handle: MidiInputSender) {
        MidiInputSender { sender: clone_sender(&self.sender) }
    }

    /// Puts a message into the bridge from the simulation's side.
    pub fn send(&self, message: MidiResponse) {
        let _ = channel_send(&self.sender, message);
    }

    /// Takes the oldest pending message out of the bridge, if there is one. Never waits.
    /// A message that is returned is taken: it joins the record of what has left the
    /// bridge. Without a message the record stays as it is.
    pub fn try_receive(&mut self) -> (message: Option<MidiResponse>)
        ensures
            message matches Some(taken) ==> final(self).taken() == old(self).taken().push(taken),
            message.is_none() ==> final(self).taken() == old(self).taken(),
    {
        let message = channel_try_recv(&self.receiver);
        match message {
            Some(taken) => {
                self.taken = Ghost(self.taken@.push(taken));
            },
            None => {},
        }
        message
    }

    /// The number of messages that are waiting in the bridge right now.
    pub fn pending(&self) -> (count: usize) {
        channel_len(&self.receiver)
    }

    /// Takes out the messages that are waiting at the time of the call, oldest first.
    /// Messages that arrive while the call runs stay for the next one, so the call
    /// always ends. What is returned is what was taken, each message once and in the
    /// order in which it left the bridge.
    pub fn drain(&mut self) -> (messages: Vec<MidiResponse>)
        ensures
            final(self).taken() == old(self).taken() + messages@,
    {
        let pending = self.pending();
        let mut messages: Vec<MidiResponse> = Vec::new();
        let mut taken: usize = 0;
        while taken < pending
            invariant
                taken <= pending,
                self.taken() == old(self).taken() + messages@,
            decreases pending - taken,
        {
            match self.try_receive() {
                Some(message) => {
                    messages.push(message);
                    taken = taken + 1;
                },
                None => {
                    taken = pending;
                },
            }
        }
        messages
    }
}

/// The per-tick input step: takes out of the bridge what has arrived, folds it into the
/// input state in the order of arrival, and returns the key events for this tick's
/// consumers together with the messages they came from. The messages that are folded
/// in are those that were taken out of the bridge, each once.
pub fn sync_keys(input_reader: &mut MidiInputReader, input_state: &mut MidiInputState) -> (synced:
    SyncedKeys)
    ensures
        final(input_reader).taken() == old(input_reader).taken() + synced.messages@,
        final(input_state)@ == old(input_state)@.apply_all(synced.messages@),
        synced.events@ == broadcasts(synced.messages@),
        final(input_state)@.octave == old(input_state)@.octave,
        old(input_state)@.wf() ==> final(input_state)@.wf(),
{
    let messages = input_reader.drain();
    let events = input_state.apply_all(&messages);
    SyncedKeys { messages, events }
}

} // verus!
