//! The dragon: its position, its velocity and the three physics operations.
//!
//! Positions are whole cells. Velocities are held as whole numbers of
//! [`VELOCITY_SCALE`]-ths of a cell per physics step, which is the amount that
//! one application of gravity adds, so that every velocity the game can reach
//! is represented exactly.
use vstd::prelude::*;
use crate::render::{cp437_code, Color, CommandView, RenderCommand};

verus! {

/// How many velocity units make one cell per physics step.
pub const VELOCITY_SCALE: i32 = 5;

/// What one application of gravity adds to the vertical velocity: a fifth of a cell per step.
pub const GRAVITY: i32 = 1;

/// The fastest that gravity lets the dragon fall: two cells per step.
pub const TERMINAL_VELOCITY: i32 = 10;

/// What one flap takes from the vertical velocity: two cells per step.
pub const FLAP_IMPULSE: i32 = 10;

/// The horizontal velocity of every dragon: one cell per step.
pub const FORWARD_VELOCITY: i32 = 5;

/// The column in which a dragon starts.
pub const START_X: i32 = 5;

/// The row in which a dragon starts.
pub const START_Y: i32 = 25;

/// The character as which the dragon is drawn.
pub const PLAYER_SYMBOL: char = '&';

/// The controlled entity.
#[derive(Clone, Copy, Debug, PartialEq, Eq)]
pub struct Player {
    /// Column, in world space.
    pub x: i32,
    /// Row; row 0 is the top of the screen.
    pub y: i32,
    /// Horizontal velocity, in velocity units.
    pub x_velocity: i32,
    /// Vertical velocity, in velocity units; positive is downwards.
    pub y_velocity: i32,
}

/// The mathematical model of a [`Player`]: the same four quantities as unbounded integers.
pub struct PlayerView {
    pub x: int,
    pub y: int,
    pub x_velocity: int,
    pub y_velocity: int,
}

/// The whole cells that a velocity moves in one step: the velocity divided by
/// [`VELOCITY_SCALE`], rounded towards zero.
pub open spec fn whole_cells(velocity: int) -> int {
    if velocity >= 0 {
        velocity / (VELOCITY_SCALE as int)
    } else {
        -((-velocity) / (VELOCITY_SCALE as int))
    }
}

/// The larger of a coordinate and zero.
pub open spec fn clamp_to_screen(coordinate: int) -> int {
    if coordinate < 0 {
        0
    } else {
        coordinate
    }
}

impl PlayerView {
    /// The dragon with which every run starts.
    pub open spec fn start() -> PlayerView {
        PlayerView {
            x: START_X as int,
            y: START_Y as int,
            x_velocity: FORWARD_VELOCITY as int,
            y_velocity: 0,
        }
    }

    /// One application of gravity: below the terminal velocity the vertical
    /// velocity grows by [`GRAVITY`], from there on it stays.
    pub open spec fn gravity(self) -> PlayerView {
        PlayerView {
            y_velocity: if self.y_velocity < TERMINAL_VELOCITY {
                self.y_velocity + GRAVITY
            } else {
                self.y_velocity
            },
            ..self
        }
    }

    /// `n` applications of gravity in a row.
    pub open spec fn gravity_times(self, n: nat) -> PlayerView
        decreases n,
    {
        if n == 0 {
            self
        } else {
            self.gravity().gravity_times((n - 1) as nat)
        }
    }

    /// One step of motion: each coordinate moves by the whole cells of its
    /// velocity and is then kept from going below zero.
    pub open spec fn motion(self) -> PlayerView {
        PlayerView {
            x: clamp_to_screen(self.x + whole_cells(self.x_velocity)),
            y: clamp_to_screen(self.y + whole_cells(self.y_velocity)),
            ..self
        }
    }

    /// One flap: the vertical velocity drops by [`FLAP_IMPULSE`], whatever it was.
    pub open spec fn flap(self) -> PlayerView {
        PlayerView { y_velocity: self.y_velocity - FLAP_IMPULSE, ..self }
    }

    /// The drawing of the dragon: its symbol, yellow on black, in screen
    /// column 0 and in the dragon's own row.
    pub open spec fn sprite(self) -> CommandView {
        CommandView::SetCell {
            col: 0,
            row: self.y,
            fg: Color::Yellow,
            bg: Color::Black,
            glyph: cp437_code(PLAYER_SYMBOL),
        }
    }

    /// What every dragon of a running game satisfies: it is on or right of
    /// column 0, on or below row 0, moves forward at the fixed velocity and
    /// falls no faster than the terminal velocity.
    pub open spec fn wf(self) -> bool {
        &&& self.x >= 0
        &&& self.y >= 0
        &&& self.x_velocity == FORWARD_VELOCITY
        &&& self.y_velocity <= TERMINAL_VELOCITY
    }
}

impl View for Player {
    type V = PlayerView;

    open spec fn view(&self) -> PlayerView {
        PlayerView {
            x: self.x as int,
            y: self.y as int,
            x_velocity: self.x_velocity as int,
            y_velocity: self.y_velocity as int,
        }
    }
}

impl Player {
    /// See [`PlayerView::wf`].
    pub open spec fn wf(&self) -> bool {
        self@.wf()
    }

    /// The dragon with which every run starts: column 5, row 25, moving
    /// forward one cell per step and not yet falling.
    pub fn new() -> (player: Player)
        ensures
            player@ == PlayerView::start(),
            player.wf(),
    {
        Player { x: START_X, y: START_Y, x_velocity: FORWARD_VELOCITY, y_velocity: 0 }
    }

    /// The command that draws the dragon.
    pub fn render(&self) -> (command: RenderCommand)
        ensures
            command@ == self@.sprite(),
    {
        RenderCommand::set(0, self.y, Color::Yellow, Color::Black, PLAYER_SYMBOL)
    }

    /// Applies gravity once.
    pub fn gravity(&mut self)
        ensures
            final(self)@ == old(self)@.gravity(),
            final(self).y_velocity <= TERMINAL_VELOCITY || final(self).y_velocity == old(
                self,
            ).y_velocity,
            old(self).wf() ==> final(self).wf(),
    {
        if self.y_velocity < TERMINAL_VELOCITY {
            self.y_velocity += GRAVITY;
        }
    }

    /// Moves the dragon by one physics step.
    ///
    /// A coordinate that would leave the range of `i32` at the upper end cannot
    /// be stored; at the lower end it is clamped to zero like every other.
    pub fn motion(&mut self)
        requires
            old(self).x + whole_cells(old(self).x_velocity as int) <= i32::MAX,
            old(self).y + whole_cells(old(self).y_velocity as int) <= i32::MAX,
        ensures
            final(self)@ == old(self)@.motion(),
            final(self).x >= 0,
            final(self).y >= 0,
            old(self).wf() ==> final(self).wf(),
    {
        let dx: i64 = (self.x_velocity / VELOCITY_SCALE) as i64;
        let dy: i64 = (self.y_velocity / VELOCITY_SCALE) as i64;
        let x: i64 = self.x as i64 + dx;
        let y: i64 = self.y as i64 + dy;
        self.x = if x < 0 { 0 } else { x as i32 };
        self.y = if y < 0 { 0 } else { y as i32 };
    }

    /// Flaps once.
    pub fn flap(&mut self)
        requires
            old(self).y_velocity - FLAP_IMPULSE >= i32::MIN,
        ensures
            final(self)@ == old(self)@.flap(),
            old(self).wf() ==> final(self).wf(),
    {
        self.y_velocity -= FLAP_IMPULSE;
    }
}

/// Gravity never pushes a dragon past the terminal velocity, however often
/// it is applied: a dragon that falls no faster than the terminal velocity
/// still does so afterwards, and one that is faster keeps the velocity it has.
pub proof fn lemma_gravity_respects_terminal_velocity(player: PlayerView, n: nat)
    ensures
        player.y_velocity <= TERMINAL_VELOCITY ==> player.gravity_times(n).y_velocity
            <= TERMINAL_VELOCITY,
        player.y_velocity >= TERMINAL_VELOCITY ==> player.gravity_times(n).y_velocity
            == player.y_velocity,
        player.gravity_times(n).y_velocity >= player.y_velocity,
    decreases n,
{
    if n > 0 {
        lemma_gravity_respects_terminal_velocity(player.gravity(), (n - 1) as nat);
    }
}

} // verus!
