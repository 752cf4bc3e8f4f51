use vstd::prelude::*;

verus! {

/// What a key event names: a character, or a named key.
#[derive(Clone, Copy, Debug, PartialEq, Eq, Structural)]
pub enum KeyCode {
    Char(char),
    F(u8),
    Backspace,
    Enter,
    Left,
    Right,
    Up,
    Down,
    Home,
    End,
    PageUp,
    PageDown,
    Tab,
    BackTab,
    Delete,
    Insert,
    Esc,
    Null,
    /// A key that this library does not tell apart (media keys, lone
    /// modifier keys, lock keys).
    Other,
}

/// The modifier keys held during a key event.
#[derive(Clone, Copy, Debug, PartialEq, Eq, Structural)]
pub struct Modifiers {
    pub control: bool,
    pub alt: bool,
    pub shift: bool,
}

impl Modifiers {
    /// No modifier held.
    pub fn none() -> (r: Modifiers)
        ensures
            !r.control && !r.alt && !r.shift,
    {
        Modifiers { control: false, alt: false, shift: false }
    }
}

/// A key with the modifiers held when it was pressed.
#[derive(Clone, Copy, Debug, PartialEq, Eq, Structural)]
pub struct KeyEvent {
    pub code: KeyCode,
    pub modifiers: Modifiers,
}

impl KeyEvent {
    /// The default quit key: the character `q`, with no modifier required.
    pub fn default_quit() -> (r: KeyEvent)
        ensures
            r.code == KeyCode::Char('q'),
            r.modifiers == (Modifiers { control: false, alt: false, shift: false }),
    {
        KeyEvent { code: KeyCode::Char('q'), modifiers: Modifiers::none() }
    }
}

/// Whether `key` triggers the binding `bound`: the same key code, with at
/// least the modifiers that the binding names held (more may be held).
pub open spec fn triggers(bound: KeyEvent, key: KeyEvent) -> bool {
    &&& key.code == bound.code
    &&& bound.modifiers.control ==> key.modifiers.control
    &&& bound.modifiers.alt ==> key.modifiers.alt
    &&& bound.modifiers.shift ==> key.modifiers.shift
}

/// Decides whether `key` triggers the binding `bound` (see `triggers`).
pub fn key_triggers(bound: &KeyEvent, key: &KeyEvent) -> (r: bool)
    ensures
        r == triggers(*bound, *key),
{
    key.code == bound.code && (!bound.modifiers.control || key.modifiers.control) && (
    !bound.modifiers.alt || key.modifiers.alt) && (!bound.modifiers.shift || key.modifiers.shift)
}

/// How a key event came about.
#[derive(Clone, Copy, Debug, PartialEq, Eq, Structural)]
pub enum KeyEventKind {
    Press,
    Repeat,
    Release,
}

/// One event from the terminal's input source.
#[derive(Clone, Copy, Debug, PartialEq, Eq, Structural)]
pub enum InputEvent {
    Key(KeyEvent, KeyEventKind),
    Mouse,
    FocusGained,
    FocusLost,
    Paste,
    Resize(u16, u16),
}

/// The key press that `event` carries, if it is one; every other event is
/// discarded.
pub open spec fn key_press_of(event: InputEvent) -> Option<KeyEvent> {
    match event {
        InputEvent::Key(key, KeyEventKind::Press) => Some(key),
        InputEvent::Key(key, KeyEventKind::Repeat) => Some(key),
        _ => None,
    }
}

/// The input filter: of the events that the input source produces, it keeps
/// the key presses (a held key's repeats included) and discards the rest.
/// The caller reads events until the filter keeps one, without limit.
pub struct Reader;

impl Reader {
    pub fn new() -> (r: Reader) {
        Reader
    }

    /// The key press in `event`, or `None` when the event is to be discarded
    /// and the next one read.
    pub fn key_press(&self, event: &InputEvent) -> (r: Option<KeyEvent>)
        ensures
            r == key_press_of(*event),
    {
        match event {
            InputEvent::Key(key, KeyEventKind::Press) => Some(*key),
            InputEvent::Key(key, KeyEventKind::Repeat) => Some(*key),
            _ => None,
        }
    }
}

} // verus!
