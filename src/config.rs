use vstd::prelude::*;
use crossterm::event::{Event, KeyCode, KeyEvent, KeyModifiers, MediaKeyCode, ModifierKeyCode};

verus! {

/// crossterm's input `Event`; held opaque.
#[verifier::external_type_specification]
#[verifier::external_body]
pub struct ExEvent(Event);

/// crossterm's `KeyCode`, with its variants visible so that bindings can name keys.
#[verifier::external_type_specification]
pub struct ExKeyCode(KeyCode);

/// crossterm's `MediaKeyCode`, a fieldless enum, as `KeyCode::Media` holds it.
#[verifier::external_type_specification]
pub struct ExMediaKeyCode(MediaKeyCode);

/// crossterm's `ModifierKeyCode`, a fieldless enum, as `KeyCode::Modifier` holds it.
#[verifier::external_type_specification]
pub struct ExModifierKeyCode(ModifierKeyCode);

/// Whether crossterm counts two events as equal.
pub uninterp spec fn same_event(a: Event, b: Event) -> bool;

/// The event of pressing the key `code` with no modifier.
pub uninterp spec fn key_press_event(code: KeyCode) -> Event;

/// Relies on crossterm's `PartialEq` for `Event`, whose answer depends on the
/// two events alone (key events are compared after their character case is
/// normalized against the Shift modifier).
#[verifier::external_body]
fn event_eq(a: &Event, b: &Event) -> (r: bool)
    ensures
        r == same_event(*a, *b),
{
    a == b
}

/// Relies on crossterm's `KeyEvent::new`, which builds a press of `code` from
/// its arguments alone.
#[verifier::external_body]
fn key_press(code: KeyCode) -> (r: Event)
    ensures
        r == key_press_event(code),
{
    Event::Key(KeyEvent::new(code, KeyModifiers::NONE))
}

/// The input events bound to one action.
pub struct EventWrapper(Vec<Event>);

impl View for EventWrapper {
    type V = Seq<Event>;

    closed spec fn view(&self) -> Seq<Event> {
        self.0@
    }
}

impl EventWrapper {
    /// Binds `events` to an action.
    pub fn new(events: Vec<Event>) -> (r: EventWrapper)
        ensures
            r@ == events@,
    {
        EventWrapper(events)
    }

    /// Whether `case` is one of the bound events.
    pub fn matches(&self, case: &Event) -> (r: bool)
        ensures
            r == exists|i: int| 0 <= i < self@.len() && same_event(#[trigger] self@[i], *case),
    {
        let mut i: usize = 0;
        while i < self.0.len()
            invariant
                i <= self@.len(),
                forall|k: int| 0 <= k < i ==> !same_event(#[trigger] self@[k], *case),
            decreases self@.len() - i,
        {
            if event_eq(&self.0[i], case) {
                return true;
            }
            i = i + 1;
        }
        false
    }
}

impl core::ops::Deref for EventWrapper {
    type Target = Vec<Event>;

    fn deref(&self) -> &Vec<Event> {
        &self.0
    }
}

impl core::ops::DerefMut for EventWrapper {
    fn deref_mut(&mut self) -> &mut Vec<Event> {
        &mut self.0
    }
}

impl From<Vec<Event>> for EventWrapper {
    fn from(value: Vec<Event>) -> (r: EventWrapper) {
        EventWrapper(value)
    }
}

impl vstd::std_specs::convert::FromSpecImpl<Vec<Event>> for EventWrapper {
    open spec fn obeys_from_spec() -> bool {
        true
    }

    closed spec fn from_spec(v: Vec<Event>) -> EventWrapper {
        EventWrapper(v)
    }
}

/// The input events bound to each action.
pub struct Keybinds {
    /// Move the selection up.
    pub up: EventWrapper,
    /// Move the selection down.
    pub down: EventWrapper,
    /// Start, pause or resume playback.
    pub play_pause: EventWrapper,
    /// Stop playback.
    pub stop: EventWrapper,
    /// Clear the queue.
    pub clear_queue: EventWrapper,
    /// Add the selection to the queue.
    pub add_to_queue: EventWrapper,
    /// Next song.
    pub next: EventWrapper,
    /// Previous song.
    pub prev: EventWrapper,
    /// Raise the volume.
    pub vol_up: EventWrapper,
    /// Lower the volume.
    pub vol_down: EventWrapper,
}

impl Default for Keybinds {
    /// Vi-style keys for the list, media keys and single letters for the player.
    fn default() -> (r: Keybinds)
        ensures
            r.up@ == seq![key_press_event(KeyCode::Char('j'))],
            r.down@ == seq![key_press_event(KeyCode::Char('k'))],
            r.play_pause@ == seq![
                key_press_event(KeyCode::Media(MediaKeyCode::Play)),
                key_press_event(KeyCode::Char(' ')),
            ],
            r.stop@ == seq![
                key_press_event(KeyCode::Media(MediaKeyCode::Stop)),
                key_press_event(KeyCode::Char('s')),
            ],
            r.clear_queue@ == seq![key_press_event(KeyCode::Char('d'))],
            r.add_to_queue@ == seq![key_press_event(KeyCode::Char('a'))],
            r.next@ == seq![
                key_press_event(KeyCode::Char('n')),
                key_press_event(KeyCode::Media(MediaKeyCode::TrackNext)),
            ],
            r.prev@ == seq![
                key_press_event(KeyCode::Char('N')),
                key_press_event(KeyCode::Media(MediaKeyCode::TrackPrevious)),
            ],
            r.vol_up@ == seq![
                key_press_event(KeyCode::Char('+')),
                key_press_event(KeyCode::Media(MediaKeyCode::RaiseVolume)),
            ],
            r.vol_down@ == seq![
                key_press_event(KeyCode::Char('-')),
                key_press_event(KeyCode::Media(MediaKeyCode::LowerVolume)),
            ],
    {
        let up = EventWrapper::new(vec![key_press(KeyCode::Char('j'))]);
        let down = EventWrapper::new(vec![key_press(KeyCode::Char('k'))]);
        let play_pause = EventWrapper::new(
            vec![
                key_press(KeyCode::Media(MediaKeyCode::Play)),
                key_press(KeyCode::Char(' ')),
            ],
        );
        let stop = EventWrapper::new(
            vec![
                key_press(KeyCode::Media(MediaKeyCode::Stop)),
                key_press(KeyCode::Char('s')),
            ],
        );
        let clear_queue = EventWrapper::new(vec![key_press(KeyCode::Char('d'))]);
        let add_to_queue = EventWrapper::new(vec![key_press(KeyCode::Char('a'))]);
        let next = EventWrapper::new(
            vec![
                key_press(KeyCode::Char('n')),
                key_press(KeyCode::Media(MediaKeyCode::TrackNext)),
            ],
        );
        let prev = EventWrapper::new(
            vec![
                key_press(KeyCode::Char('N')),
                key_press(KeyCode::Media(MediaKeyCode::TrackPrevious)),
            ],
        );
        let vol_up = EventWrapper::new(
            vec![
                key_press(KeyCode::Char('+')),
                key_press(KeyCode::Media(MediaKeyCode::RaiseVolume)),
            ],
        );
        let vol_down = EventWrapper::new(
            vec![
                key_press(KeyCode::Char('-')),
                key_press(KeyCode::Media(MediaKeyCode::LowerVolume)),
            ],
        );
        Keybinds {
            up,
            down,
            play_pause,
            stop,
            clear_queue,
            add_to_queue,
            next,
            prev,
            vol_up,
            vol_down,
        }
    }
}

} // verus!
