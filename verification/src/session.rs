//! A game in play: the frame count, the keys held down, and what each
//! frame does to the game.

use crate::bag::is_full_bag;
use crate::board::Board;
use crate::gamestate::{GameState, State};
use crate::util::{Event, Keycode, RotDirection};
use vstd::prelude::*;

verus! {

/// Frames shown in a second.
pub const FRAMES_PER_SECOND: usize = 30;

/// Whole milliseconds that a frame lasts.
pub const MILLIS_PER_FRAME: usize = 1000 / FRAMES_PER_SECOND;

/// Frames from one gravity tick to the next: as many as fit in a fifth of
/// a second.
pub const FRAMES_PER_STEP: usize = 200 / MILLIS_PER_FRAME;

/// Frames from one move of a held key to the next: as many as fit in a
/// tenth of a second.
pub const FRAMES_PER_MOVE: usize = 100 / MILLIS_PER_FRAME;

/// A game in play.
pub struct Session {
    /// The game.
    pub game: GameState,
    /// Number of frames that have passed.
    pub frame: usize,
    /// Whether the key that moves to the left is held down.
    pub left: bool,
    /// Whether the key that moves to the right is held down.
    pub right: bool,
    /// Whether the key that drops the piece is held down.
    pub down: bool,
}

/// A game in play, as the model sees it.
pub struct Play {
    pub board: Board,
    pub frame: nat,
    pub left: bool,
    pub right: bool,
    pub down: bool,
}

/// Whether a key is held after the events of a frame: a release among
/// them lets it go, a press among them without a release holds it, and
/// otherwise it stays as it was.
pub open spec fn held(before: bool, events: Seq<Event>, key: Keycode) -> bool {
    if events.contains(Event::KeyUp(key)) {
        false
    } else if events.contains(Event::KeyDown(key)) {
        true
    } else {
        before
    }
}

/// The game after the turns that the events of a frame ask for: a
/// clockwise turn for Space, then a counter-clockwise turn for Shift.
pub open spec fn turned_by(board: Board, events: Seq<Event>) -> Board {
    let first = if events.contains(Event::KeyDown(Keycode::Space)) {
        board.rotated(RotDirection::Clockwise)
    } else {
        board
    };
    if events.contains(Event::KeyDown(Keycode::Shift)) {
        first.rotated(RotDirection::CounterClockwise)
    } else {
        first
    }
}

/// The game after the moves of the held keys: to the right, then to the
/// left, then down by a row.
pub open spec fn pushed(board: Board, left: bool, right: bool, down: bool) -> Board {
    let first = if right {
        board.moved(1, 0)
    } else {
        board
    };
    let second = if left {
        first.moved(-1, 0)
    } else {
        first
    };
    if down {
        second.moved(0, 1)
    } else {
        second
    }
}

impl Play {
    /// Whether the frame begins with a gravity tick.
    pub open spec fn steps(self) -> bool {
        self.frame % (FRAMES_PER_STEP as nat) == 0
    }

    /// Whether the held keys move the piece in this frame.
    pub open spec fn moves(self) -> bool {
        self.frame % (FRAMES_PER_MOVE as nat) == 0
    }

    /// The play after the events of a frame, none of which quits: the
    /// held keys are brought up to date, the piece turns as asked, the held
    /// keys move it if the frame is one for moves, and the frame is counted.
    pub open spec fn after(self, events: Seq<Event>) -> Play {
        let left = held(self.left, events, Keycode::A);
        let right = held(self.right, events, Keycode::D);
        let down = held(self.down, events, Keycode::S);
        let turned = turned_by(self.board, events);
        Play {
            board: if self.moves() {
                pushed(turned, left, right, down)
            } else {
                turned
            },
            frame: self.frame + 1,
            left,
            right,
            down,
        }
    }
}

impl View for Session {
    type V = Play;

    open spec fn view(&self) -> Play {
        Play {
            board: self.game@,
            frame: self.frame as nat,
            left: self.left,
            right: self.right,
            down: self.down,
        }
    }
}

/// Whether `event` is among `events`.
pub fn contains(events: &Vec<Event>, event: Event) -> (found: bool)
    ensures
        found == events@.contains(event),
{
    let mut i: usize = 0;
    while i < events.len()
        invariant
            0 <= i <= events.len(),
            forall|j: int| 0 <= j < i ==> events@[j] != event,
        decreases events.len() - i,
    {
        if events[i] == event {
            return true;
        }
        i += 1;
    }
    false
}

/// Whether a key is held after the events of a frame.
pub fn held_after(before: bool, events: &Vec<Event>, key: Keycode) -> (after: bool)
    ensures
        after == held(before, events@, key),
{
    if contains(events, Event::KeyUp(key)) {
        false
    } else if contains(events, Event::KeyDown(key)) {
        true
    } else {
        before
    }
}

/// Turns the piece as the events of a frame ask: clockwise for Space, then
/// counter-clockwise for Shift.
pub fn turn(game: &mut GameState, events: &Vec<Event>)
    requires
        old(game).well_formed(),
    ensures
        final(game)@ == turned_by(old(game)@, events@),
        final(game).well_formed(),
        old(game)@.consistent() ==> final(game)@.consistent(),
{
    if contains(events, Event::KeyDown(Keycode::Space)) {
        game.rotate(RotDirection::Clockwise)
    }
    if contains(events, Event::KeyDown(Keycode::Shift)) {
        game.rotate(RotDirection::CounterClockwise)
    }
}

/// Moves the piece as the held keys ask: to the right, then to the left,
/// then down by a row. A move that does not fit is left out.
pub fn push(game: &mut GameState, left: bool, right: bool, down: bool)
    requires
        old(game).well_formed(),
    ensures
        final(game)@ == pushed(old(game)@, left, right, down),
        final(game).well_formed(),
        old(game)@.consistent() ==> final(game)@.consistent(),
{
    if right {
        game.move_right()
    }
    if left {
        game.move_left()
    }
    if down {
        let _ = game.fall();
    }
}

impl Session {
    /// A fresh game at frame 0 with no key held.
    pub fn new() -> (session: Self)
        ensures
            session@ == (Play {
                board: Board::fresh(),
                frame: 0,
                left: false,
                right: false,
                down: false,
            }),
            session.game.well_formed(),
    {
        Session { game: GameState::new(), frame: 0, left: false, right: false, down: false }
    }

    /// Whether the game is still running.
    pub fn running(&self) -> (running: bool)
        ensures
            running == (self.game.state == State::Running),
    {
        self.game.state == State::Running
    }

    /// Begins a frame: every `FRAMES_PER_STEP` frames, gravity ticks.
    pub fn begin_frame(&mut self)
        requires
            old(self).game.well_formed(),
        ensures
            final(self).game.well_formed(),
            final(self)@.frame == old(self)@.frame,
            final(self)@.left == old(self)@.left,
            final(self)@.right == old(self)@.right,
            final(self)@.down == old(self)@.down,
            !old(self)@.steps() ==> final(self)@.board == old(self)@.board,
            old(self)@.steps() ==> final(self)@.board == old(self)@.board.stepped(
                final(self)@.board.drawn_from(),
            ),
            old(self)@.steps() && old(self)@.board.spawns_on_step() && old(self)@.board.queue.len()
                == 0 ==> is_full_bag(final(self)@.board.drawn_from()),
            old(self)@.board.consistent() ==> final(self)@.board.consistent() || (
            old(self)@.steps() && old(self)@.board.spawns_on_step()
                && final(self)@.board.obstructed()),
    {
        if self.frame % FRAMES_PER_STEP == 0 {
            self.game.step();
        }
    }

    /// Ends a frame with the events that came in during it. If the player
    /// quit, nothing changes and the answer is `false`. Otherwise the held
    /// keys are brought up to date, the piece turns as asked, the held keys
    /// move it every `FRAMES_PER_MOVE` frames, the frame is counted, and
    /// the answer is `true`.
    pub fn end_frame(&mut self, events: &Vec<Event>) -> (go_on: bool)
        requires
            old(self).game.well_formed(),
            old(self).frame < usize::MAX,
        ensures
            go_on == !events@.contains(Event::Quit),
            !go_on ==> final(self)@ == old(self)@,
            go_on ==> final(self)@ == old(self)@.after(events@),
            final(self).game.well_formed(),
            old(self)@.board.consistent() ==> final(self)@.board.consistent(),
    {
        if contains(events, Event::Quit) {
            return false;
        }
        self.right = held_after(self.right, events, Keycode::D);
        self.left = held_after(self.left, events, Keycode::A);
        self.down = held_after(self.down, events, Keycode::S);
        turn(&mut self.game, events);
        if self.frame % FRAMES_PER_MOVE == 0 {
            push(&mut self.game, self.left, self.right, self.down);
        }
        self.frame += 1;
        true
    }
}

} // verus!
