//! The decisions of the control loop: what each input does to a running
//! session, and what the caller has to do next. Reading the inputs and
//! drawing the frames is the caller's part.

use crate::board::{in_bounds, BoardShape, Cell};
use crate::game::Game;
use crate::render::{shows, Frame};
use crate::rules::{advance, GameState};
use vstd::prelude::*;

verus! {

/// The time to wait for an input before a tick is due, in milliseconds.
pub const TICK_MILLIS: u64 = 200;

/// A new session marks each position alive with a chance of
/// `SEED_NUMERATOR` in `SEED_DENOMINATOR`.
pub const SEED_NUMERATOR: u32 = 1;

/// See `SEED_NUMERATOR`.
pub const SEED_DENOMINATOR: u32 = 5;

/// What the caller observed while it waited.
#[derive(Debug, Clone, Copy, PartialEq, Eq, Structural)]
pub enum Input {
    /// The process was asked to stop.
    Interrupt,
    /// The wait ran out without an event.
    Tick,
    /// A character key, and whether the control key was held with it.
    Key { symbol: char, control: bool },
    /// The terminal changed its size.
    Resize { columns: u16, rows: u16 },
    /// Any other event.
    Other,
}

/// What the caller has to do after an input.
#[derive(Debug)]
pub enum Action {
    /// Leave the loop.
    Quit,
    /// Draw this frame.
    Draw(Frame),
    /// Nothing but to wait again.
    Wait,
}

/// The kind of action that an input leads to.
pub enum Verdict {
    Quit,
    Draw,
    Wait,
}

/// A game and whether it is paused.
#[derive(Debug)]
pub struct Session {
    pub game: Game,
    pub paused: bool,
}

/// The board on a terminal of the given size: the last row is kept for the
/// status line.
pub open spec fn board_for(columns: u16, rows: u16) -> BoardShape {
    BoardShape { width: columns, height: (rows - 1) as u16 }
}

/// Which kind of action `input` leads to. An interrupt and the keys `q` and
/// control-`c` quit; a tick draws unless the session is paused; the key `n`
/// draws one generation while it is paused.
pub open spec fn verdict(paused: bool, input: Input) -> Verdict {
    match input {
        Input::Interrupt => Verdict::Quit,
        Input::Tick => if paused {
            Verdict::Wait
        } else {
            Verdict::Draw
        },
        Input::Key { symbol, control } => if symbol == 'q' || (symbol == 'c' && control) {
            Verdict::Quit
        } else if symbol == 'n' && paused {
            Verdict::Draw
        } else {
            Verdict::Wait
        },
        Input::Resize { .. } => Verdict::Wait,
        Input::Other => Verdict::Wait,
    }
}

/// Whether the session is paused after `input`: the space bar and the key
/// `p` switch between paused and running.
pub open spec fn paused_after(paused: bool, input: Input) -> bool {
    match input {
        Input::Key { symbol, .. } => if symbol == ' ' || symbol == 'p' {
            !paused
        } else {
            paused
        },
        _ => paused,
    }
}

/// The game after `input`: a generation later where the input draws, on
/// the new board after a resize, and unchanged otherwise.
pub open spec fn game_after(game: GameState, paused: bool, input: Input) -> GameState {
    match input {
        Input::Resize { columns, rows } => GameState {
            live: game.live,
            shape: board_for(columns, rows),
            generation: game.generation,
        },
        _ => if verdict(paused, input) is Draw {
            advance(game)
        } else {
            game
        },
    }
}

/// The board shape for a terminal of `columns` by `rows`.
pub fn board_shape_for(columns: u16, rows: u16) -> (shape: BoardShape)
    requires
        rows >= 1,
    ensures
        shape == board_for(columns, rows),
{
    BoardShape { width: columns, height: rows - 1 }
}

impl Session {
    /// The inputs that `step` takes in this state: a generation can only be
    /// drawn while its count and the status row fit their types, and a
    /// terminal has at least one row.
    pub open spec fn admits(&self, input: Input) -> bool {
        &&& verdict(self.paused, input) is Draw ==> self.game@.generation < u32::MAX
            && self.game@.shape.height < u16::MAX
        &&& input matches Input::Resize { rows, .. } ==> rows >= 1
    }

    /// A running session on a terminal of `columns` by `rows`, seeded at
    /// random: generation 0, and every live cell on the board.
    pub fn new(columns: u16, rows: u16) -> (session: Session)
        requires
            rows >= 1,
        ensures
            !session.paused,
            session.game@.shape == board_for(columns, rows),
            session.game@.generation == 0,
            forall|c: Cell| session.game@.live.contains(c) ==> in_bounds(c, session.game@.shape),
    {
        let shape = board_shape_for(columns, rows);
        let mut game = Game::new(shape.width, shape.height);
        game.seed(SEED_NUMERATOR, SEED_DENOMINATOR);
        Session { game, paused: false }
    }

    /// Whether `step` takes `input` in this state.
    pub fn accepts(&self, input: Input) -> (accepted: bool)
        ensures
            accepted == self.admits(input),
    {
        let fits = self.game.generation() < u32::MAX && self.game.board_shape().height < u16::MAX;
        match input {
            Input::Interrupt => true,
            Input::Tick => self.paused || fits,
            Input::Key { symbol, control } => {
                symbol == 'q' || (symbol == 'c' && control) || !(symbol == 'n' && self.paused) || fits
            },
            Input::Resize { columns: _, rows } => rows >= 1,
            Input::Other => true,
        }
    }

    /// Takes one input: decides what the caller does next, and changes the
    /// session as the input asks. A frame to draw shows the game before the
    /// generation that is computed with it.
    pub fn step(&mut self, input: Input) -> (action: Action)
        requires
            old(self).admits(input),
        ensures
            final(self).paused == paused_after(old(self).paused, input),
            final(self).game@ == game_after(old(self).game@, old(self).paused, input),
            match verdict(old(self).paused, input) {
                Verdict::Quit => action is Quit,
                Verdict::Wait => action is Wait,
                Verdict::Draw => action matches Action::Draw(frame) && shows(frame, old(self).game@),
            },
    {
        match input {
            Input::Interrupt => Action::Quit,
            Input::Tick => {
                if self.paused {
                    Action::Wait
                } else {
                    self.draw()
                }
            },
            Input::Key { symbol, control } => {
                if symbol == 'q' || (symbol == 'c' && control) {
                    Action::Quit
                } else if symbol == ' ' || symbol == 'p' {
                    self.paused = !self.paused;
                    Action::Wait
                } else if symbol == 'n' && self.paused {
                    self.draw()
                } else {
                    Action::Wait
                }
            },
            Input::Resize { columns, rows } => {
                let shape = board_shape_for(columns, rows);
                self.game.resize_board(shape.width, shape.height);
                Action::Wait
            },
            Input::Other => Action::Wait,
        }
    }

    /// Takes the frame of the game as it stands, then computes the next
    /// generation.
    fn draw(&mut self) -> (action: Action)
        requires
            old(self).game@.generation < u32::MAX,
            old(self).game@.shape.height < u16::MAX,
        ensures
            final(self).paused == old(self).paused,
            final(self).game@ == advance(old(self).game@),
            action matches Action::Draw(frame) && shows(frame, old(self).game@),
    {
        let frame = self.game.frame();
        self.game.next();
        Action::Draw(frame)
    }
}

} // verus!
