//! The boundary to a presentation layer: what it has to offer, the colour
//! in which each cell is painted, and which of the window system's events
//! reach the game.

use crate::gamestate::GameState;
use crate::tetromino::Color;
use crate::util::{Event, Keycode};
use vstd::prelude::*;

verus! {

/// A presentation layer: it shows a game and reports what the player did
/// since it was last asked.
pub trait Renderer {
    fn draw(&mut self, gamestate: &mut GameState);

    fn get_events(&mut self) -> Vec<Event>;
}

/// Red, green and blue of the paint for a colour.
pub open spec fn paint(color: Color) -> (u8, u8, u8) {
    match color {
        Color::Red => (255, 0, 0),
        Color::Blue => (0, 0, 255),
        Color::Green => (0, 255, 0),
        Color::Orange => (235, 69, 17),
        Color::Purple => (56, 2, 59),
        Color::Teal => (34, 124, 157),
        Color::Yellow => (255, 255, 0),
    }
}

/// No two colours are painted alike.
pub proof fn lemma_paint_tells_colors_apart(first: Color, second: Color)
    requires
        paint(first) == paint(second),
    ensures
        first == second,
{
}

/// Red, green and blue of the paint for a colour.
pub fn rgb(color: Color) -> (components: (u8, u8, u8))
    ensures
        components == paint(color),
{
    match color {
        Color::Red => (255, 0, 0),
        Color::Blue => (0, 0, 255),
        Color::Green => (0, 255, 0),
        Color::Orange => (235, 69, 17),
        Color::Purple => (56, 2, 59),
        Color::Teal => (34, 124, 157),
        Color::Yellow => (255, 255, 0),
    }
}

/// A key as the window system names it, as far as the game tells keys
/// apart.
#[derive(Clone, Copy, PartialEq, Eq, Debug, Structural)]
pub enum RawKey {
    Escape,
    W,
    A,
    S,
    D,
    Space,
    LeftShift,
    Other,
}

/// An event as the window system reports it. `repeat` tells a key event
/// that the system repeats for a held key from the first one.
#[derive(Clone, Copy, PartialEq, Eq, Debug, Structural)]
pub enum RawEvent {
    Quit,
    KeyDown { key: RawKey, repeat: bool },
    KeyUp { key: RawKey, repeat: bool },
    Other,
}

/// The game's name for a key, for the six keys that it knows.
pub open spec fn known_key(key: RawKey) -> Option<Keycode> {
    match key {
        RawKey::W => Some(Keycode::W),
        RawKey::A => Some(Keycode::A),
        RawKey::S => Some(Keycode::S),
        RawKey::D => Some(Keycode::D),
        RawKey::Space => Some(Keycode::Space),
        RawKey::LeftShift => Some(Keycode::Shift),
        RawKey::Escape => None,
        RawKey::Other => None,
    }
}

/// Whether the release of a key is reported: it is for the four letter
/// keys.
pub open spec fn release_reported(key: Keycode) -> bool {
    key == Keycode::W || key == Keycode::A || key == Keycode::S || key == Keycode::D
}

/// What the game is told of a window system event. Closing the window and
/// pressing Escape both quit. A known key going down is reported, and so is
/// a letter key going up, unless the event is a repeat. Nothing else is
/// reported.
pub open spec fn reported(raw: RawEvent) -> Option<Event> {
    match raw {
        RawEvent::Quit => Some(Event::Quit),
        RawEvent::KeyDown { key, repeat } => if key == RawKey::Escape {
            Some(Event::Quit)
        } else if repeat {
            None
        } else {
            match known_key(key) {
                Some(known) => Some(Event::KeyDown(known)),
                None => None,
            }
        },
        RawEvent::KeyUp { key, repeat } => if repeat {
            None
        } else {
            match known_key(key) {
                Some(known) => if release_reported(known) {
                    Some(Event::KeyUp(known))
                } else {
                    None
                },
                None => None,
            }
        },
        RawEvent::Other => None,
    }
}

/// What the game is told of a sequence of window system events: the
/// report of each, in order, for those that are reported.
pub open spec fn reported_all(raw: Seq<RawEvent>) -> Seq<Event>
    decreases raw.len(),
{
    if raw.len() == 0 {
        Seq::empty()
    } else {
        match reported(raw.last()) {
            Some(event) => reported_all(raw.drop_last()).push(event),
            None => reported_all(raw.drop_last()),
        }
    }
}

/// What the game is told of a window system event, if anything.
pub fn translate(raw: RawEvent) -> (event: Option<Event>)
    ensures
        event == reported(raw),
{
    match raw {
        RawEvent::Quit | RawEvent::KeyDown { key: RawKey::Escape, .. } => Some(Event::Quit),
        RawEvent::KeyDown { key: RawKey::W, repeat: false } => Some(Event::KeyDown(Keycode::W)),
        RawEvent::KeyDown { key: RawKey::A, repeat: false } => Some(Event::KeyDown(Keycode::A)),
        RawEvent::KeyDown { key: RawKey::S, repeat: false } => Some(Event::KeyDown(Keycode::S)),
        RawEvent::KeyDown { key: RawKey::D, repeat: false } => Some(Event::KeyDown(Keycode::D)),
        RawEvent::KeyDown { key: RawKey::Space, repeat: false } => Some(
            Event::KeyDown(Keycode::Space),
        ),
        RawEvent::KeyDown { key: RawKey::LeftShift, repeat: false } => Some(
            Event::KeyDown(Keycode::Shift),
        ),
        RawEvent::KeyUp { key: RawKey::W, repeat: false } => Some(Event::KeyUp(Keycode::W)),
        RawEvent::KeyUp { key: RawKey::A, repeat: false } => Some(Event::KeyUp(Keycode::A)),
        RawEvent::KeyUp { key: RawKey::S, repeat: false } => Some(Event::KeyUp(Keycode::S)),
        RawEvent::KeyUp { key: RawKey::D, repeat: false } => Some(Event::KeyUp(Keycode::D)),
        _ => None,
    }
}

/// What the game is told of the window system's events, in their order.
pub fn translate_all(raw: &Vec<RawEvent>) -> (events: Vec<Event>)
    ensures
        events@ == reported_all(raw@),
{
    let mut events: Vec<Event> = Vec::new();
    let mut i: usize = 0;
    while i < raw.len()
        invariant
            0 <= i <= raw.len(),
            events@ == reported_all(raw@.take(i as int)),
        decreases raw.len() - i,
    {
        proof {
            assert(raw@.take(i + 1).drop_last() =~= raw@.take(i as int));
            assert(raw@.take(i + 1).last() == raw@[i as int]);
        }
        match translate(raw[i]) {
            Some(event) => {
                events.push(event);
            },
            None => {},
        }
        i += 1;
    }
    proof {
        assert(raw@.take(raw.len() as int) =~= raw@);
    }
    events
}

} // verus!
