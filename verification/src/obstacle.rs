//! The wall: where its gap lies, how it is generated, drawn and hit.
use vstd::prelude::*;
use bracket_lib::prelude::RandomNumberGenerator;
use crate::player::{Player, PlayerView};
use crate::random::draw_between;
use crate::render::{cp437_code, lemma_views_push, views, Color, CommandView, RenderCommand, SCREEN_HEIGHT};

verus! {

/// The topmost row in which the center of a gap can lie.
pub const GAP_CENTER_MIN: i32 = 10;

/// The first row below those in which the center of a gap can lie.
pub const GAP_CENTER_END: i32 = 40;

/// The size of the gap at score 0; each point narrows it by one row.
pub const WIDEST_GAP: i32 = 20;

/// The size below which no score narrows the gap.
pub const NARROWEST_GAP: i32 = 2;

/// The character of which walls are built.
pub const WALL_SYMBOL: char = '|';

/// A wall with one gap.
#[derive(Clone, Copy, Debug, PartialEq, Eq)]
pub struct Obstacle {
    /// Column, in world space.
    pub x: i32,
    /// The row at the center of the gap.
    pub gap_y: i32,
    /// The nominal height of the gap, in rows.
    pub gap_size: i32,
}

/// The mathematical model of an [`Obstacle`].
pub struct ObstacleView {
    pub x: int,
    pub gap_y: int,
    pub gap_size: int,
}

/// The size of the gap at a given score: `20 - score`, but never under 2.
pub open spec fn gap_size_at(score: int) -> int {
    if WIDEST_GAP - score > NARROWEST_GAP {
        WIDEST_GAP - score
    } else {
        NARROWEST_GAP as int
    }
}

/// One cell of a wall.
pub open spec fn wall_cell(col: int, row: int) -> CommandView {
    CommandView::SetCell {
        col,
        row,
        fg: Color::Red,
        bg: Color::Black,
        glyph: cp437_code(WALL_SYMBOL),
    }
}

/// Half the size of a gap, rounded towards zero.
pub open spec fn half_gap(gap_size: int) -> int {
    if gap_size >= 0 {
        gap_size / 2
    } else {
        -((-gap_size) / 2)
    }
}

/// The cells of a wall in column `col` from row `from` up to but not
/// including row `end`, top to bottom; none where `end <= from`.
pub open spec fn wall_cells(col: int, from: int, end: int) -> Seq<CommandView> {
    Seq::new(
        if end > from {
            (end - from) as nat
        } else {
            0
        },
        |i: int| wall_cell(col, from + i),
    )
}

impl ObstacleView {
    /// The wall in column `x` that is generated at `score` when `gap_y` is drawn.
    pub open spec fn generated(x: int, score: int, gap_y: int) -> ObstacleView {
        ObstacleView { x, gap_y, gap_size: gap_size_at(score) }
    }

    /// The last row of the wall's upper part is the one above this.
    pub open spec fn gap_top(self) -> int {
        self.gap_y - half_gap(self.gap_size)
    }

    /// The first row of the wall's lower part.
    pub open spec fn gap_bottom(self) -> int {
        self.gap_y + half_gap(self.gap_size)
    }

    /// Whether the wall kills the dragon: only in the wall's own column, and
    /// there in every row above `gap_top` and every row below `gap_bottom`.
    pub open spec fn lethal(self, player: PlayerView) -> bool {
        &&& player.x == self.x
        &&& (player.y < self.gap_top() || player.y > self.gap_bottom())
    }

    /// The drawing of the wall as seen by a dragon in column `player_x`: the
    /// upper part from row 0 down to the gap, then the lower part from the
    /// gap down to the bottom of the screen.
    pub open spec fn drawing(self, player_x: int) -> Seq<CommandView> {
        wall_cells(self.x - player_x, 0, self.gap_top()) + wall_cells(
            self.x - player_x,
            self.gap_bottom(),
            SCREEN_HEIGHT as int,
        )
    }

    /// What every generated wall satisfies: its gap is centered in one of the
    /// rows 10 to 39 and has one of the sizes 2 to 20.
    pub open spec fn wf(self) -> bool {
        &&& GAP_CENTER_MIN <= self.gap_y < GAP_CENTER_END
        &&& NARROWEST_GAP <= self.gap_size <= WIDEST_GAP
    }
}

impl View for Obstacle {
    type V = ObstacleView;

    open spec fn view(&self) -> ObstacleView {
        ObstacleView { x: self.x as int, gap_y: self.gap_y as int, gap_size: self.gap_size as int }
    }
}

impl Obstacle {
    /// See [`ObstacleView::wf`].
    pub open spec fn wf(&self) -> bool {
        self@.wf()
    }

    /// The wall in column `x` for the given score, with its gap centered in row `gap_y`.
    pub fn with_gap(x: i32, score: i32, gap_y: i32) -> (obstacle: Obstacle)
        requires
            score >= 0,
        ensures
            obstacle@ == ObstacleView::generated(x as int, score as int, gap_y as int),
            obstacle.wf() <==> GAP_CENTER_MIN <= gap_y < GAP_CENTER_END,
    {
        let narrowed: i32 = WIDEST_GAP - score;
        Obstacle { x, gap_y, gap_size: if narrowed > NARROWEST_GAP { narrowed } else { NARROWEST_GAP } }
    }

    /// Generates the wall in column `x` for the given score, drawing the row
    /// of its gap from `rng`.
    ///
    /// The size of the gap is `20 - score`, but never under 2; its center is
    /// whichever of the rows 10 to 39 the generator yields.
    pub fn new(x: i32, score: i32, rng: &mut RandomNumberGenerator) -> (obstacle: Obstacle)
        requires
            score >= 0,
        ensures
            obstacle@ == ObstacleView::generated(x as int, score as int, obstacle.gap_y as int),
            GAP_CENTER_MIN <= obstacle.gap_y < GAP_CENTER_END,
            obstacle.wf(),
    {
        let gap_y: i32 = draw_between(rng, GAP_CENTER_MIN, GAP_CENTER_END);
        Obstacle::with_gap(x, score, gap_y)
    }

    /// Whether the wall kills the given dragon.
    pub fn lethal_interaction(&self, player: &Player) -> (lethal: bool)
        ensures
            lethal == self@.lethal(player@),
    {
        if player.x != self.x {
            return false;
        }
        let half_gap_size: i64 = (self.gap_size / 2) as i64;
        let player_above_gap: bool = (player.y as i64) < self.gap_y as i64 - half_gap_size;
        let player_below_gap: bool = (player.y as i64) > self.gap_y as i64 + half_gap_size;
        player_above_gap || player_below_gap
    }

    /// The commands that draw the wall as seen by a dragon in column
    /// `player_x`, which is drawn in screen column 0.
    ///
    /// The screen column and the two rows that bound the gap have to be
    /// representable; rows outside the screen are handed on as they are.
    pub fn render(&self, player_x: i32) -> (commands: Vec<RenderCommand>)
        requires
            i32::MIN <= self.x - player_x <= i32::MAX,
            i32::MIN <= self@.gap_top() <= i32::MAX,
            i32::MIN <= self@.gap_bottom() <= i32::MAX,
        ensures
            views(commands@) == self@.drawing(player_x as int),
    {
        let screen_x: i32 = self.x - player_x;
        let half_size: i32 = self.gap_size / 2;
        let top: i32 = self.gap_y - half_size;
        let bottom: i32 = self.gap_y + half_size;
        let mut commands: Vec<RenderCommand> = Vec::new();
        assert(views(commands@) =~= wall_cells(screen_x as int, 0, 0));
        let mut y: i32 = 0;
        while y < top
            invariant
                0 <= y,
                y <= top || y == 0,
                views(commands@) == wall_cells(screen_x as int, 0, y as int),
            decreases top - y,
        {
            let cell = RenderCommand::set(screen_x, y, Color::Red, Color::Black, WALL_SYMBOL);
            proof {
                lemma_views_push(commands@, cell);
                lemma_wall_cells_push(screen_x as int, 0, y as int);
            }
            commands.push(cell);
            y += 1;
        }
        let ghost upper = views(commands@);
        assert(upper =~= upper + wall_cells(screen_x as int, bottom as int, bottom as int));
        let mut y: i32 = bottom;
        while y < SCREEN_HEIGHT
            invariant
                bottom <= y,
                y <= SCREEN_HEIGHT || y == bottom,
                views(commands@) == upper + wall_cells(screen_x as int, bottom as int, y as int),
            decreases SCREEN_HEIGHT - y,
        {
            let cell = RenderCommand::set(screen_x, y, Color::Red, Color::Black, WALL_SYMBOL);
            proof {
                lemma_views_push(commands@, cell);
                lemma_wall_cells_push(screen_x as int, bottom as int, y as int);
                assert((upper + wall_cells(screen_x as int, bottom as int, y as int)).push(cell@)
                    =~= upper + wall_cells(screen_x as int, bottom as int, y as int).push(cell@));
            }
            commands.push(cell);
            y += 1;
        }
        assert(wall_cells(screen_x as int, bottom as int, y as int) =~= wall_cells(
            screen_x as int,
            bottom as int,
            SCREEN_HEIGHT as int,
        ));
        commands
    }
}

/// A higher score never widens the gap. Up to score 18 each point narrows it
/// by one row, from 20 rows at score 0 down to 2; from there on it stays at 2.
pub proof fn lemma_gap_narrows_with_score(lower: int, higher: int)
    requires
        0 <= lower <= higher,
    ensures
        NARROWEST_GAP <= gap_size_at(higher) <= gap_size_at(lower) <= WIDEST_GAP,
        gap_size_at(0) == WIDEST_GAP,
        lower < 18 ==> gap_size_at(lower + 1) == gap_size_at(lower) - 1,
        lower >= 18 ==> gap_size_at(higher) == gap_size_at(lower) == NARROWEST_GAP,
{
}

/// An odd gap is halved towards zero. A wall whose gap has the odd size
/// `g > 0` spares, in its own column, exactly the `g` rows from `(g - 1) / 2`
/// above the center of the gap to `(g - 1) / 2` below it, and kills in every
/// other row of that column.
pub proof fn lemma_odd_gap_is_halved_towards_zero(obstacle: ObstacleView, player: PlayerView)
    requires
        obstacle.gap_size % 2 == 1,
    ensures
        obstacle.gap_size > 0 ==> 2 * half_gap(obstacle.gap_size) == obstacle.gap_size - 1,
        obstacle.gap_size < 0 ==> 2 * half_gap(obstacle.gap_size) == obstacle.gap_size + 1,
        obstacle.gap_size > 0 ==> obstacle.gap_bottom() - obstacle.gap_top() + 1
            == obstacle.gap_size,
        obstacle.gap_size > 0 ==> (obstacle.lethal(player) <==> player.x == obstacle.x && !(
        obstacle.gap_y - (obstacle.gap_size - 1) / 2 <= player.y <= obstacle.gap_y + (
        obstacle.gap_size - 1) / 2)),
{
}

/// A run of wall cells that ends one row further down is the run with the
/// cell of that row appended.
pub proof fn lemma_wall_cells_push(col: int, from: int, end: int)
    requires
        from <= end,
    ensures
        wall_cells(col, from, end + 1) == wall_cells(col, from, end).push(wall_cell(col, end)),
{
    assert(wall_cells(col, from, end + 1) =~= wall_cells(col, from, end).push(wall_cell(col, end)));
}

} // verus!
