//! A session of play: what a key means, and what each intent makes of the
//! session. The loop that waits for keys and paints the screen is not here; it
//! hands each intent to `Session::step` and carries out the action it gets
//! back.

use vstd::prelude::*;
use crate::game::{with_player, Direction, GameState, MoveResult, Player};
use crate::grid::{blank, cell, Grid, Tile, TileKind};
use crate::maze::{generated, lemma_generated_goal, lemma_generated_rooms};

verus! {

/// A key of the keyboard, as far as the game tells keys apart.
#[derive(Clone, Copy, Debug, PartialEq, Eq, Structural)]
pub enum Key {
    Char(char),
    Esc,
    Other,
}

/// What the player asks for with a key.
#[derive(Clone, Copy, Debug, PartialEq, Eq, Structural)]
pub enum KeyIntent {
    MoveUp,
    MoveDown,
    MoveLeft,
    MoveRight,
    Quit,
    NoIntent,
}

/// Where a session stands.
#[derive(Clone, Copy, Debug, PartialEq, Eq, Structural)]
pub enum Phase {
    Playing,
    Won,
    Exiting,
}

/// What the loop around the session has to do after a step.
#[derive(Clone, Copy, Debug, PartialEq, Eq, Structural)]
pub enum Action {
    Nothing,
    Repaint,
    ShowVictory,
    TearDown,
}

/// Where the player starts: the top left room.
pub open spec fn start_cell() -> Player {
    Player { x: 1, y: 1 }
}

/// The intent behind a key event. Only a key that was pressed counts, not one
/// released or held. `w`, `s`, `a` and `d` move up, down, left and right; `q`,
/// `c` and the escape key quit; every other key means nothing.
pub open spec fn intent_of(key: Key, pressed: bool) -> KeyIntent {
    if !pressed {
        KeyIntent::NoIntent
    } else {
        match key {
            Key::Esc => KeyIntent::Quit,
            Key::Char(c) => if c == 'q' || c == 'c' {
                KeyIntent::Quit
            } else if c == 'w' {
                KeyIntent::MoveUp
            } else if c == 's' {
                KeyIntent::MoveDown
            } else if c == 'a' {
                KeyIntent::MoveLeft
            } else if c == 'd' {
                KeyIntent::MoveRight
            } else {
                KeyIntent::NoIntent
            },
            Key::Other => KeyIntent::NoIntent,
        }
    }
}

/// The direction in which an intent moves the player, if it is a move: up is
/// north, down is south, left is west and right is east.
pub open spec fn direction_of(intent: KeyIntent) -> Option<Direction> {
    match intent {
        KeyIntent::MoveUp => Some(Direction::North),
        KeyIntent::MoveDown => Some(Direction::South),
        KeyIntent::MoveLeft => Some(Direction::West),
        KeyIntent::MoveRight => Some(Direction::East),
        KeyIntent::Quit => None,
        KeyIntent::NoIntent => None,
    }
}

/// The intent behind a key event.
pub fn decode_key(key: Key, pressed: bool) -> (intent: KeyIntent)
    ensures
        intent == intent_of(key, pressed),
{
    if !pressed {
        return KeyIntent::NoIntent;
    }
    match key {
        Key::Esc => KeyIntent::Quit,
        Key::Char(c) => if c == 'q' || c == 'c' {
            KeyIntent::Quit
        } else if c == 'w' {
            KeyIntent::MoveUp
        } else if c == 's' {
            KeyIntent::MoveDown
        } else if c == 'a' {
            KeyIntent::MoveLeft
        } else if c == 'd' {
            KeyIntent::MoveRight
        } else {
            KeyIntent::NoIntent
        },
        Key::Other => KeyIntent::NoIntent,
    }
}

/// The direction in which an intent moves the player, if it is a move.
pub fn move_direction(intent: KeyIntent) -> (direction: Option<Direction>)
    ensures
        direction == direction_of(intent),
{
    match intent {
        KeyIntent::MoveUp => Some(Direction::North),
        KeyIntent::MoveDown => Some(Direction::South),
        KeyIntent::MoveLeft => Some(Direction::West),
        KeyIntent::MoveRight => Some(Direction::East),
        KeyIntent::Quit => None,
        KeyIntent::NoIntent => None,
    }
}

/// A session of play: a game and the phase that the session is in.
#[derive(Clone, Debug, PartialEq, Eq)]
pub struct Session {
    game: GameState,
    phase: Phase,
}

impl Session {
    /// The game of the session.
    pub closed spec fn spec_game(&self) -> GameState {
        self.game
    }

    /// The phase of the session.
    pub closed spec fn spec_phase(&self) -> Phase {
        self.phase
    }

    /// What holds of every session: its game is well formed, a session that is
    /// playing has not been won, and a session in the won phase has been.
    pub open spec fn wf(&self) -> bool {
        &&& self.spec_game().wf()
        &&& self.spec_phase() == Phase::Playing ==> !self.spec_game().spec_has_won()
        &&& self.spec_phase() == Phase::Won ==> self.spec_game().spec_has_won()
    }

    /// Whether `after` with the action `action` is what the intent `intent`
    /// makes of this session.
    ///
    /// While playing, a move is applied to the game: blocked, it asks for
    /// nothing; made, it asks for a repaint, or, where it won the game, for
    /// the victory screen, and the session is then won. While playing or won,
    /// quitting ends the session and asks for the teardown. Everything else
    /// changes nothing and asks for nothing: an intent that means nothing, a
    /// move in a session that is won, and any intent once the session is
    /// exiting.
    pub open spec fn steps_to(&self, after: Session, action: Action, intent: KeyIntent) -> bool {
        match (self.spec_phase(), intent, direction_of(intent)) {
            (Phase::Playing, _, Some(direction)) => {
                &&& self.spec_game().moves_to(after.spec_game(), direction)
                &&& if self.spec_game().blocked(direction) {
                    after.spec_phase() == Phase::Playing && action == Action::Nothing
                } else if after.spec_game().spec_has_won() {
                    after.spec_phase() == Phase::Won && action == Action::ShowVictory
                } else {
                    after.spec_phase() == Phase::Playing && action == Action::Repaint
                }
            },
            (Phase::Playing, KeyIntent::Quit, _) | (Phase::Won, KeyIntent::Quit, _) => {
                &&& after.spec_game() == self.spec_game()
                &&& after.spec_phase() == Phase::Exiting
                &&& action == Action::TearDown
            },
            _ => after == *self && action == Action::Nothing,
        }
    }

    /// Whether this is a session as it starts on a grid of `width` columns
    /// and `height` rows: it is playing a game not yet won, on a maze generated
    /// on a blank grid of that size, with the player in the top left room.
    pub open spec fn fresh_on(&self, width: int, height: int) -> bool {
        let game = self.spec_game();
        &&& self.spec_phase() == Phase::Playing
        &&& !game.spec_has_won()
        &&& game.spec_player() == start_cell()
        &&& game.spec_grid().spec_width() == width
        &&& game.spec_grid().spec_height() == height
        &&& exists|maze: Seq<Seq<Tile>>|
            generated(blank(width, height), maze, width, height) && game.spec_grid()@
                == #[trigger] with_player(maze, width, height, 1, 1)
    }

    /// Starts a session on a grid of `width` columns and `height` rows: makes
    /// the grid, generates a maze on it and puts the player in the top left
    /// room. That can be done exactly where the grid has an inner cell, which
    /// takes three columns and three rows.
    pub fn start(width: usize, height: usize) -> (started: Option<Session>)
        ensures
            started is Some <==> width >= 3 && height >= 3,
            started matches Some(session) ==> session.wf() && session.fresh_on(
                width as int,
                height as int,
            ),
    {
        let mut grid = Grid::new(width, height);
        grid.generate();
        proof {
            if width >= 3 && height >= 3 {
                lemma_generated_rooms(
                    blank(width as int, height as int),
                    grid@,
                    width as int,
                    height as int,
                    1,
                    1,
                );
            }
        }
        match GameState::new(grid, Player { x: 1, y: 1 }) {
            Some(game) => Some(Session::new(game)),
            None => None,
        }
    }

    /// A session on `game`: playing, or already won where the game is.
    pub fn new(game: GameState) -> (session: Session)
        requires
            game.wf(),
        ensures
            session.wf(),
            session.spec_game() == game,
            session.spec_phase() == (if game.spec_has_won() {
                Phase::Won
            } else {
                Phase::Playing
            }),
    {
        let phase = if game.has_won() {
            Phase::Won
        } else {
            Phase::Playing
        };
        Session { game, phase }
    }

    /// The game of the session.
    pub fn game(&self) -> (game: &GameState)
        ensures
            *game == self.spec_game(),
    {
        &self.game
    }

    /// The phase of the session.
    #[verifier::when_used_as_spec(spec_phase)]
    pub fn phase(&self) -> (phase: Phase)
        ensures
            phase == self.spec_phase(),
    {
        self.phase
    }

    /// Takes one intent and says what the loop has to do: the session
    /// afterwards and the action are those that `steps_to` describes.
    pub fn step(&mut self, intent: KeyIntent) -> (action: Action)
        requires
            old(self).wf(),
        ensures
            final(self).wf(),
            old(self).steps_to(*final(self), action, intent),
    {
        match self.phase {
            Phase::Playing => match move_direction(intent) {
                Some(direction) => match self.game.apply_move(direction) {
                    MoveResult::Blocked => Action::Nothing,
                    MoveResult::Moved => if self.game.has_won() {
                        self.phase = Phase::Won;
                        Action::ShowVictory
                    } else {
                        Action::Repaint
                    },
                },
                None => match intent {
                    KeyIntent::Quit => {
                        self.phase = Phase::Exiting;
                        Action::TearDown
                    },
                    _ => Action::Nothing,
                },
            },
            Phase::Won => match intent {
                KeyIntent::Quit => {
                    self.phase = Phase::Exiting;
                    Action::TearDown
                },
                _ => Action::Nothing,
            },
            Phase::Exiting => Action::Nothing,
        }
    }
}

/// The win is taken once and never back: a step leaves a won game as it is,
/// whatever the intent, and a game not yet won is won by a step exactly where
/// the session is playing and the step is a move that is not blocked and
/// enters the goal.
pub proof fn lemma_won_once(before: Session, after: Session, action: Action, intent: KeyIntent)
    requires
        before.wf(),
        before.steps_to(after, action, intent),
    ensures
        before.spec_game().spec_has_won() ==> after.spec_game() == before.spec_game(),
        !before.spec_game().spec_has_won() ==> (after.spec_game().spec_has_won() <==> {
            &&& before.spec_phase() == Phase::Playing
            &&& direction_of(intent) matches Some(direction)
            &&& before.spec_game().spec_grid().at(
                before.spec_game().target(direction).0,
                before.spec_game().target(direction).1,
            ).kind == TileKind::Goal
        }),
        action == Action::ShowVictory <==> !before.spec_game().spec_has_won()
            && after.spec_game().spec_has_won(),
{
}

/// On a generated maze the goal is the last inner cell, and so the game is won
/// by getting there: a move on a grid whose kinds are those of the generated
/// maze `maze` wins the game exactly where it is not blocked and takes the
/// player to column `width - 2`, row `height - 2`.
pub proof fn lemma_win_on_generated(
    before: GameState,
    after: GameState,
    direction: Direction,
    fresh: Seq<Seq<Tile>>,
    maze: Seq<Seq<Tile>>,
)
    requires
        before.wf(),
        before.moves_to(after, direction),
        generated(
            fresh,
            maze,
            before.spec_grid().spec_width() as int,
            before.spec_grid().spec_height() as int,
        ),
        forall|x: int, y: int|
            before.spec_grid().in_bounds(x, y) ==> (#[trigger] cell(before.spec_grid()@, x, y)).kind
                == cell(maze, x, y).kind,
    ensures
        after.spec_has_won() <==> before.spec_has_won() || (!before.blocked(direction)
            && before.target(direction) == (
            before.spec_grid().spec_width() - 2,
            before.spec_grid().spec_height() - 2,
        )),
{
    let to = before.target(direction);
    crate::game::lemma_player_inside(before);
    lemma_generated_goal(
        fresh,
        maze,
        before.spec_grid().spec_width() as int,
        before.spec_grid().spec_height() as int,
        to.0,
        to.1,
    );
    assert(cell(before.spec_grid()@, to.0, to.1).kind == cell(maze, to.0, to.1).kind);
}

/// An exiting session is at its end: no intent changes it or asks for
/// anything, and no step leads from it to another phase.
pub proof fn lemma_exiting_is_final(
    before: Session,
    after: Session,
    action: Action,
    intent: KeyIntent,
)
    requires
        before.spec_phase() == Phase::Exiting,
        before.steps_to(after, action, intent),
    ensures
        after == before,
        action == Action::Nothing,
{
}

} // verus!
