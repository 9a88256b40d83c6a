//! Key input: the actions a key press can request and the listener's
//! decision step.
//!
//! The listener thread itself blocks on the terminal and so lives outside
//! the library; it reports what it saw as an [`InputEvent`] and this module
//! decides, per event, what to publish on the action channel.

use vstd::prelude::*;

verus! {

/// An action requested by the user through the keyboard.
#[derive(Clone, Copy, Debug, PartialEq, Eq)]
pub enum KeyActions {
    Quit,
    ToggleUnits,
}

/// A key code, reduced to what the key map distinguishes.
#[derive(Clone, Copy, Debug, PartialEq, Eq)]
pub enum KeyInput {
    Tab,
    Char(char),
    Other,
}

/// One observation of the input source: a key was pressed, something else
/// happened (a key release, a non-key event, a failed read), or the poll
/// timed out with nothing to report.
#[derive(Clone, Copy, Debug, PartialEq, Eq)]
pub enum InputEvent {
    KeyPress(KeyInput),
    NotKeyPress,
    TimedOut,
}

/// The action a pressed key stands for: Tab toggles the displayed units,
/// `q` quits, and any other key maps to no action.
pub open spec fn spec_translate_key(key: KeyInput) -> Option<KeyActions> {
    match key {
        KeyInput::Tab => Some(KeyActions::ToggleUnits),
        KeyInput::Char(c) => if c == 'q' {
            Some(KeyActions::Quit)
        } else {
            None
        },
        KeyInput::Other => None,
    }
}

/// Maps a pressed key to the action it requests.
pub fn translate_key(key: KeyInput) -> (action: Option<KeyActions>)
    ensures
        action == spec_translate_key(key),
{
    match key {
        KeyInput::Tab => Some(KeyActions::ToggleUnits),
        KeyInput::Char(c) => if c == 'q' {
            Some(KeyActions::Quit)
        } else {
            None
        },
        KeyInput::Other => None,
    }
}

/// What the listener publishes for one observed event: `None` to stay
/// silent, `Some(message)` to send.  Only a key press makes it send; an
/// unrecognized key is sent as an explicit empty message, so the consumer
/// can tell an idle listener from a dead one.
pub open spec fn spec_listener_step(event: InputEvent) -> Option<Option<KeyActions>> {
    match event {
        InputEvent::KeyPress(key) => Some(spec_translate_key(key)),
        InputEvent::NotKeyPress => None,
        InputEvent::TimedOut => None,
    }
}

/// The key listener's decision step.  The loop around it — polling the
/// terminal with a bounded timeout and sending what this step returns,
/// until the channel's peer is gone — runs outside the library.
pub struct KeyPressHandler {
    /// How long one poll of the input source may block, in milliseconds.
    pub tick_rate_ms: u64,
}

impl KeyPressHandler {
    /// A handler polling at the fixed cadence of 250 milliseconds.
    pub fn new() -> (handler: Self)
        ensures
            handler.tick_rate_ms == 250,
    {
        KeyPressHandler { tick_rate_ms: 250 }
    }

    /// Decides what one observed event puts on the action channel.
    pub fn poll(&self, event: InputEvent) -> (send: Option<Option<KeyActions>>)
        ensures
            send == spec_listener_step(event),
    {
        match event {
            InputEvent::KeyPress(key) => Some(translate_key(key)),
            InputEvent::NotKeyPress => None,
            InputEvent::TimedOut => None,
        }
    }
}

} // verus!
