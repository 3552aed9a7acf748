//! Events: decoded key input, timer ticks, and the action notifications the
//! editors broadcast, carried by an ordered single-consumer queue.

use vstd::prelude::*;

verus! {

/// A logical key, already decoded from the platform's raw key codes.
#[derive(Clone, Copy, Debug, PartialEq, Eq)]
pub enum Key {
    Char(char),
    Up,
    Down,
    Left,
    Right,
    Backspace,
    Enter,
    Esc,
    Other,
}

/// One discrete key event: the logical key plus whether the control modifier
/// was held.
#[derive(Clone, Copy, Debug, PartialEq, Eq)]
pub struct KeyInput {
    pub key: Key,
    pub control: bool,
}

/// An action notification: what an editor broadcasts when its selection or
/// text changes. Payloads are plain names, indices and strings — never
/// references — so recipients re-fetch current state instead of trusting a
/// stale snapshot.
#[derive(Debug, PartialEq)]
pub enum ActionPayload {
    /// The editor with the given title now has the given selection.
    Selection(String, Option<usize>),
    /// The editor with the given title committed the suggestion with the
    /// given identifier.
    TextSelection(String, String),
    /// The free-text buffer now holds the given text.
    Text(String),
}

/// Anything that can travel on the bus: raw key input, a timer tick, or an
/// action notification.
#[derive(Debug, PartialEq)]
pub enum Event {
    Input(KeyInput),
    Tick,
    Action(ActionPayload),
}

/// An ordered many-producer, single-consumer queue of events. Everything is
/// appended at the back and consumed from the front.
pub struct EventBus {
    pub events: Vec<Event>,
}

impl EventBus {
    pub fn new() -> (r: EventBus)
        ensures
            r.events@ == Seq::<Event>::empty(),
    {
        EventBus { events: Vec::new() }
    }

    /// Append one event at the back of the queue.
    pub fn send(&mut self, e: Event)
        ensures
            final(self).events@ == old(self).events@.push(e),
    {
        self.events.push(e);
    }

    /// Remove and return the oldest event, or None when the queue is empty.
    pub fn next(&mut self) -> (r: Option<Event>)
        ensures
            old(self).events@.len() == 0 ==> r is None && final(self).events@ == old(self).events@,
            old(self).events@.len() > 0 ==> r == Some(old(self).events@[0]) && final(self).events@
                == old(self).events@.remove(0),
    {
        if self.events.len() == 0 {
            None
        } else {
            Some(self.events.remove(0))
        }
    }

    pub fn len(&self) -> (r: usize)
        ensures
            r == self.events@.len(),
    {
        self.events.len()
    }
}

} // verus!
