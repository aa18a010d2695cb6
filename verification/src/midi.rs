//! Key events of a MIDI keyboard and the input state that the simulation keeps of them.
//!
//! A device delivers raw frames `[status, key, velocity]`. A frame becomes a
//! [`MidiInputKey`]; the messages that reach the simulation are [`MidiResponse`]s, and
//! [`MidiInputState`] folds them into a connection flag and a bounded history of recent keys.

use vstd::prelude::*;

verus! {

/// Number of key events that the history keeps.
pub const KEY_HISTORY_LENGTH: usize = 10;

/// Shortest frame that carries a key event: status, key and velocity.
pub const FRAME_LENGTH: usize = 3;

/// Status byte of a key that went down.
pub const STATUS_PRESSED: u8 = 144;

/// Status byte of a key that went up.
pub const STATUS_RELEASED: u8 = 128;

/// Status byte of a key that is held with changing pressure.
pub const STATUS_HOLDING: u8 = 160;

/// What happened to a key.
#[derive(Clone, Copy, Debug, PartialEq, Eq, Structural)]
pub enum MidiEvents {
    Pressed,
    Released,
    Holding,
}

/// The event kind that a status byte stands for. Every byte other than the three known
/// ones counts as a press.
pub open spec fn event_of_status(status: u8) -> MidiEvents {
    if status == STATUS_RELEASED {
        MidiEvents::Released
    } else if status == STATUS_HOLDING {
        MidiEvents::Holding
    } else {
        MidiEvents::Pressed
    }
}

impl Default for MidiEvents {
    fn default() -> (event: MidiEvents)
        ensures
            event == MidiEvents::Pressed,
    {
        MidiEvents::Pressed
    }
}

impl MidiEvents {
    /// Reads the event kind from the status byte of a frame.
    pub fn from_status(status: u8) -> (event: MidiEvents)
        ensures
            event == event_of_status(status),
    {
        if status == STATUS_RELEASED {
            MidiEvents::Released
        } else if status == STATUS_HOLDING {
            MidiEvents::Holding
        } else {
            MidiEvents::Pressed
        }
    }

    /// The text that names this event kind.
    pub open spec fn label(self) -> Seq<char> {
        match self {
            MidiEvents::Pressed => "Pressed"@,
            MidiEvents::Released => "Released"@,
            MidiEvents::Holding => "Holding"@,
        }
    }

    /// The name of the event kind, as shown in the input history.
    pub fn to_string(&self) -> (text: String)
        ensures
            text@ == self.label(),
    {
        match self {
            MidiEvents::Pressed => "Pressed".to_owned(),
            MidiEvents::Released => "Released".to_owned(),
            MidiEvents::Holding => "Holding".to_owned(),
        }
    }

    /// Whether a key in this state is down: pressed or held.
    pub open spec fn is_down(self) -> bool {
        self != MidiEvents::Released
    }

    /// Tells whether the event leaves the key down, which is when it can strike a note.
    pub fn strikes(&self) -> (down: bool)
        ensures
            down == self.is_down(),
    {
        match self {
            MidiEvents::Pressed => true,
            MidiEvents::Released => false,
            MidiEvents::Holding => true,
        }
    }
}

/// One key event of the device.
#[derive(Clone, Copy, Debug, PartialEq, Eq, Structural)]
pub struct MidiInputKey {
    /// Device time of the event, in microseconds.
    pub timestamp: u64,
    /// What happened to the key.
    pub event: MidiEvents,
    /// Key number as the device reports it, octave included.
    pub id: u8,
    /// Velocity or pressure of the event.
    pub intensity: u8,
}

/// The key event that a raw frame carries, if it is long enough to carry one.
pub open spec fn frame_event(stamp: u64, frame: Seq<u8>) -> Option<MidiInputKey> {
    if frame.len() < FRAME_LENGTH {
        None
    } else {
        Some(
            MidiInputKey {
                timestamp: stamp,
                event: event_of_status(frame[0]),
                id: frame[1],
                intensity: frame[2],
            },
        )
    }
}

impl Default for MidiInputKey {
    fn default() -> (key: MidiInputKey)
        ensures
            key == (MidiInputKey { timestamp: 0, event: MidiEvents::Pressed, id: 0, intensity: 0 }),
    {
        MidiInputKey { timestamp: 0, event: MidiEvents::Pressed, id: 0, intensity: 0 }
    }
}

impl MidiInputKey {
    /// Reads a raw frame that arrived at device time `stamp`. A frame of fewer than
    /// three bytes carries no key event and is discarded.
    pub fn from_frame(stamp: u64, message: &[u8]) -> (key: Option<MidiInputKey>)
        ensures
            key == frame_event(stamp, message@),
    {
        if message.len() < FRAME_LENGTH {
            return None;
        }
        Some(
            MidiInputKey {
                timestamp: stamp,
                event: MidiEvents::from_status(message[0]),
                id: message[1],
                intensity: message[2],
            },
        )
    }
}

/// A message from the device side to the simulation.
#[derive(Clone, Copy, Debug, PartialEq, Eq, Structural)]
pub enum MidiResponse {
    /// A key event arrived.
    Input(MidiInputKey),
    /// A device was connected.
    Connected,
    /// The device was disconnected.
    Disconnected,
}

/// The history after one more key: the new key goes to the end, and the oldest keys
/// leave from the front until at most [`KEY_HISTORY_LENGTH`] are held.
pub open spec fn ring_push(history: Seq<MidiInputKey>, key: MidiInputKey) -> Seq<MidiInputKey> {
    if history.len() >= KEY_HISTORY_LENGTH {
        history.skip(history.len() - KEY_HISTORY_LENGTH + 1).push(key)
    } else {
        history.push(key)
    }
}

/// The last `KEY_HISTORY_LENGTH` entries of a sequence of keys, or all of them if there
/// are fewer.
pub open spec fn most_recent(keys: Seq<MidiInputKey>) -> Seq<MidiInputKey> {
    if keys.len() > KEY_HISTORY_LENGTH {
        keys.skip(keys.len() - KEY_HISTORY_LENGTH)
    } else {
        keys
    }
}

/// The key event that a message makes known to the rest of the simulation.
pub open spec fn broadcast_of(message: MidiResponse) -> Option<MidiInputKey> {
    match message {
        MidiResponse::Input(key) => Some(key),
        MidiResponse::Connected => None,
        MidiResponse::Disconnected => None,
    }
}

/// The key events among a run of messages, in the order of arrival.
pub open spec fn broadcasts(messages: Seq<MidiResponse>) -> Seq<MidiInputKey>
    decreases messages.len(),
{
    if messages.len() == 0 {
        Seq::empty()
    } else {
        match broadcast_of(messages.last()) {
            Some(key) => broadcasts(messages.drop_last()).push(key),
            None => broadcasts(messages.drop_last()),
        }
    }
}

/// What the simulation knows of the input device.
pub struct MidiInputState {
    /// Whether a device is connected.
    pub connected: bool,
    /// The most recent key events, oldest first.
    pub keys: Vec<MidiInputKey>,
    /// The octave that the player has set on the device.
    pub octave: i32,
}

/// The mathematical value of a [`MidiInputState`].
pub struct MidiInputStateView {
    pub connected: bool,
    pub keys: Seq<MidiInputKey>,
    pub octave: i32,
}

impl MidiInputStateView {
    /// The history is within its bound.
    pub open spec fn wf(self) -> bool {
        self.keys.len() <= KEY_HISTORY_LENGTH
    }

    /// The state of a fresh session: no device, no keys, octave zero.
    pub open spec fn initial() -> MidiInputStateView {
        MidiInputStateView { connected: false, keys: Seq::empty(), octave: 0 }
    }

    /// The state after one message.
    pub open spec fn apply(self, message: MidiResponse) -> MidiInputStateView {
        match message {
            MidiResponse::Input(key) => MidiInputStateView {
                keys: ring_push(self.keys, key),
                ..self
            },
            MidiResponse::Connected => MidiInputStateView { connected: true, ..self },
            MidiResponse::Disconnected => MidiInputStateView { connected: false, ..self },
        }
    }

    /// The state after a run of messages, applied in the order of arrival.
    pub open spec fn apply_all(self, messages: Seq<MidiResponse>) -> MidiInputStateView
        decreases messages.len(),
    {
        if messages.len() == 0 {
            self
        } else {
            self.apply_all(messages.drop_last()).apply(messages.last())
        }
    }
}

impl View for MidiInputState {
    type V = MidiInputStateView;

    open spec fn view(&self) -> MidiInputStateView {
        MidiInputStateView { connected: self.connected, keys: self.keys@, octave: self.octave }
    }
}

impl MidiInputState {
    /// The input state of a fresh session.
    pub fn new() -> (state: MidiInputState)
        ensures
            state@ == MidiInputStateView::initial(),
            state@.wf(),
    {
        MidiInputState { connected: false, keys: Vec::new(), octave: 0 }
    }

    /// Appends a key to the history and evicts the oldest keys beyond the bound.
    pub fn record_key(&mut self, key: MidiInputKey)
        ensures
            final(self)@.keys == ring_push(old(self)@.keys, key),
            final(self)@.connected == old(self)@.connected,
            final(self)@.octave == old(self)@.octave,
            final(self)@.wf(),
    {
        let ghost before = self.keys@;
        let ghost mut dropped: int = 0;
        while self.keys.len() >= KEY_HISTORY_LENGTH
            invariant
                0 <= dropped <= before.len(),
                self.keys@ == before.skip(dropped),
                dropped > 0 ==> self.keys@.len() >= KEY_HISTORY_LENGTH - 1,
                self.connected == old(self).connected,
                self.octave == old(self).octave,
            decreases self.keys.len(),
        {
            self.keys.remove(0);
            proof {
                dropped = dropped + 1;
                assert(self.keys@ == before.skip(dropped));
            }
        }
        self.keys.push(key);
        assert(self.keys@ == ring_push(before, key));
    }

    /// Takes one message in: a key goes into the history and is handed back for the
    /// consumers of this tick, a connection message flips the connection flag.
    pub fn apply(&mut self, message: MidiResponse) -> (event: Option<MidiInputKey>)
        ensures
            final(self)@ == old(self)@.apply(message),
            event == broadcast_of(message),
            final(self)@.octave == old(self)@.octave,
            old(self)@.wf() ==> final(self)@.wf(),
    {
        match message {
            MidiResponse::Input(key) => {
                self.record_key(key);
                Some(key)
            },
            MidiResponse::Connected => {
                self.connected = true;
                None
            },
            MidiResponse::Disconnected => {
                self.connected = false;
                None
            },
        }
    }

    /// Takes a run of messages in, in the order of arrival, and returns the key events
    /// among them.
    pub fn apply_all(&mut self, messages: &Vec<MidiResponse>) -> (events: Vec<MidiInputKey>)
        ensures
            final(self)@ == old(self)@.apply_all(messages@),
            events@ == broadcasts(messages@),
            final(self)@.octave == old(self)@.octave,
            old(self)@.wf() ==> final(self)@.wf(),
    {
        let mut events: Vec<MidiInputKey> = Vec::new();
        let mut i: usize = 0;
        proof {
            assert(messages@.take(0) =~= Seq::empty());
        }
        while i < messages.len()
            invariant
                i <= messages.len(),
                self@ == old(self)@.apply_all(messages@.take(i as int)),
                events@ == broadcasts(messages@.take(i as int)),
                self@.octave == old(self)@.octave,
                old(self)@.wf() ==> self@.wf(),
            decreases messages.len() - i,
        {
            let message = messages[i];
            proof {
                let next = messages@.take(i + 1);
                assert(next.drop_last() =~= messages@.take(i as int));
                assert(next.last() == message);
            }
            match self.apply(message) {
                Some(key) => {
                    events.push(key);
                },
                None => {},
            }
            i = i + 1;
        }
        proof {
            assert(messages@.take(messages.len() as int) =~= messages@);
        }
        events
    }
}

/// Messages that arrive in two runs have the same effect as the same messages in one
/// run: the state after the second run is the state after all of them, and the key
/// events of both runs together are the key events of all of them, in their order.
pub proof fn lemma_messages_in_two_runs(
    state: MidiInputStateView,
    first: Seq<MidiResponse>,
    second: Seq<MidiResponse>,
)
    ensures
        state.apply_all(first).apply_all(second) == state.apply_all(first + second),
        broadcasts(first) + broadcasts(second) == broadcasts(first + second),
    decreases second.len(),
{
    if second.len() == 0 {
        assert(first + second =~= first);
        assert(broadcasts(first) + broadcasts(second) =~= broadcasts(first));
    } else {
        lemma_messages_in_two_runs(state, first, second.drop_last());
        assert((first + second).drop_last() =~= first + second.drop_last());
        assert((first + second).last() == second.last());
        match broadcast_of(second.last()) {
            Some(key) => {
                assert(broadcasts(first) + broadcasts(second.drop_last()).push(key) =~= (
                broadcasts(first) + broadcasts(second.drop_last())).push(key));
            },
            None => {},
        }
    }
}

/// Every history that a push leaves is within the bound, whatever it was before.
pub proof fn lemma_ring_push_bounded(history: Seq<MidiInputKey>, key: MidiInputKey)
    ensures
        ring_push(history, key).len() <= KEY_HISTORY_LENGTH,
        ring_push(history, key).len() >= 1,
        ring_push(history, key).last() == key,
{
}

/// A push onto a full history evicts exactly its oldest key and keeps the others in
/// their order; a push onto a history with room evicts nothing.
pub proof fn lemma_ring_push_fifo(history: Seq<MidiInputKey>, key: MidiInputKey)
    requires
        history.len() <= KEY_HISTORY_LENGTH,
    ensures
        history.len() == KEY_HISTORY_LENGTH ==> ring_push(history, key) == history.skip(1).push(key),
        history.len() < KEY_HISTORY_LENGTH ==> ring_push(history, key) == history.push(key),
{
}

/// Whatever messages arrive, in whatever number, the history stays within its bound
/// and holds the most recent keys in the order of arrival.
pub proof fn lemma_history_bounded(state: MidiInputStateView, messages: Seq<MidiResponse>)
    requires
        state.wf(),
    ensures
        state.apply_all(messages).wf(),
        state.apply_all(messages).keys == most_recent(state.keys + broadcasts(messages)),
        state.apply_all(messages).octave == state.octave,
    decreases messages.len(),
{
    if messages.len() == 0 {
        assert(state.keys + broadcasts(messages) =~= state.keys);
    } else {
        let front = messages.drop_last();
        lemma_history_bounded(state, front);
        let before = state.apply_all(front);
        let all = state.keys + broadcasts(front);
        match broadcast_of(messages.last()) {
            Some(key) => {
                assert(state.keys + broadcasts(messages) =~= all.push(key));
                assert(ring_push(most_recent(all), key) =~= most_recent(all.push(key)));
            },
            None => {},
        }
    }
}

} // verus!
