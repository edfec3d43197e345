//! The session: the mode of the game, its score, and what one tick does.
//!
//! A session is in one of three modes. In the menu and after a death it shows
//! a prompt and waits for a key; while playing, each tick advances the
//! physics when a step is due, applies a flap, draws the frame, scores a wall
//! that was passed and decides whether the dragon has died.
use vstd::prelude::*;
use bracket_lib::prelude::RandomNumberGenerator;
use crate::obstacle::{
    Obstacle,
    ObstacleView,
    GAP_CENTER_END,
    GAP_CENTER_MIN,
    NARROWEST_GAP,
    WIDEST_GAP,
};
use crate::player::{
    Player,
    PlayerView,
    FLAP_IMPULSE,
    FORWARD_VELOCITY,
    START_X,
    TERMINAL_VELOCITY,
};
use crate::render::{
    lemma_views_add,
    lemma_views_push,
    views,
    Color,
    CommandView,
    RenderCommand,
    SCREEN_HEIGHT,
    SCREEN_WIDTH,
};

verus! {

/// The time between two steps of the physics, in milliseconds.
pub const FRAME_DURATION: u32 = 75;

/// What a session is doing.
#[derive(Clone, Copy, Debug, PartialEq, Eq, Structural)]
pub enum GameMode {
    Menu,
    Playing,
    End,
}

/// A key press, as far as the game tells keys apart.
#[derive(Clone, Copy, Debug, PartialEq, Eq, Structural)]
pub enum Key {
    /// Play, or play again.
    P,
    /// Quit.
    Q,
    /// Flap.
    Space,
    /// Any other key.
    Other,
}

/// One session of the game.
pub struct State {
    pub player: Player,
    /// The walls passed so far; a restart keeps it.
    pub score: i32,
    /// The one wall that is ahead of the dragon.
    pub obstacle: Obstacle,
    /// The milliseconds that have gone by since the last step of the physics.
    pub frame_time: u32,
    pub mode: GameMode,
    /// The source from which the gaps of new walls are drawn.
    pub rng: RandomNumberGenerator,
}

/// The mathematical model of a [`State`]: everything but the random source.
pub struct StateView {
    pub player: PlayerView,
    pub score: int,
    pub obstacle: ObstacleView,
    pub frame_time: int,
    pub mode: GameMode,
}

/// The screen of the menu.
pub open spec fn menu_screen() -> Seq<CommandView> {
    seq![
        CommandView::ClearScreen { background: Color::Black },
        CommandView::PrintText { col: 1, row: 1, text: "Flappy Dragon v0.0.1"@ },
        CommandView::PrintCentered { row: 5, text: "Welcome to Flappy Dragon!"@ },
        CommandView::PrintCentered { row: 8, text: "(P) Play Game"@ },
        CommandView::PrintCentered { row: 9, text: "(Q) Quit Game"@ },
    ]
}

/// The screen after a death.
pub open spec fn end_screen() -> Seq<CommandView> {
    seq![
        CommandView::ClearScreen { background: Color::Black },
        CommandView::PrintText { col: 1, row: 1, text: "Flappy Dragon v0.0.1"@ },
        CommandView::PrintCentered { row: 5, text: "You are DEAD!"@ },
        CommandView::PrintCentered { row: 8, text: "(P) Play Again"@ },
        CommandView::PrintCentered { row: 9, text: "(Q) Quit Game"@ },
    ]
}

/// What follows a prompt screen: a request to quit when `Q` was pressed, else nothing.
pub open spec fn quit_request(key: Option<Key>) -> Seq<CommandView> {
    if key == Some(Key::Q) {
        seq![CommandView::RequestQuit]
    } else {
        Seq::empty()
    }
}

impl StateView {
    /// The session with which the program starts, given the row that was
    /// drawn for the gap of its first wall.
    pub open spec fn initial(gap_y: int) -> StateView {
        StateView {
            player: PlayerView::start(),
            score: 0,
            obstacle: ObstacleView::generated(SCREEN_WIDTH as int, 0, gap_y),
            frame_time: 0,
            mode: GameMode::Menu,
        }
    }

    /// The session after a restart: a new dragon, a new wall one screen
    /// ahead of it with its gap in row `gap_y`, the timer at zero and the
    /// game running. The score is kept.
    pub open spec fn restart(self, gap_y: int) -> StateView {
        StateView {
            player: PlayerView::start(),
            score: self.score,
            obstacle: ObstacleView::generated(START_X + SCREEN_WIDTH, self.score, gap_y),
            frame_time: 0,
            mode: GameMode::Playing,
        }
    }

    /// Whether the physics takes a step in a tick that comes `elapsed_ms`
    /// after the one before: when the time since the last step exceeds
    /// [`FRAME_DURATION`].
    pub open spec fn step_due(self, elapsed_ms: int) -> bool {
        self.frame_time + elapsed_ms > FRAME_DURATION
    }

    /// The dragon after the physics of one tick of play: gravity and motion
    /// if a step is due, then a flap if `Space` was pressed.
    pub open spec fn moved(self, elapsed_ms: int, key: Option<Key>) -> PlayerView {
        let stepped = if self.step_due(elapsed_ms) {
            self.player.gravity().motion()
        } else {
            self.player
        };
        if key == Some(Key::Space) {
            stepped.flap()
        } else {
            stepped
        }
    }

    /// Whether the dragon is past the wall after the physics of one tick of play.
    pub open spec fn passes(self, elapsed_ms: int, key: Option<Key>) -> bool {
        self.moved(elapsed_ms, key).x > self.obstacle.x
    }

    /// The session after one tick of play, where `gap_y` is the row drawn
    /// for the gap of a new wall, if the tick generates one.
    pub open spec fn play(self, elapsed_ms: int, key: Option<Key>, gap_y: int) -> StateView {
        let player = self.moved(elapsed_ms, key);
        let passed = self.passes(elapsed_ms, key);
        let score = if passed {
            self.score + 1
        } else {
            self.score
        };
        let obstacle = if passed {
            ObstacleView::generated(player.x + SCREEN_WIDTH, score, gap_y)
        } else {
            self.obstacle
        };
        StateView {
            player,
            score,
            obstacle,
            frame_time: if self.step_due(elapsed_ms) {
                0
            } else {
                self.frame_time + elapsed_ms
            },
            mode: if player.y > SCREEN_HEIGHT || obstacle.lethal(player) {
                GameMode::End
            } else {
                self.mode
            },
        }
    }

    /// The frame of one tick of play: the cleared screen, the dragon after
    /// its physics, the wall as it stood when the tick began, and the hint.
    pub open spec fn play_frame(self, elapsed_ms: int, key: Option<Key>) -> Seq<CommandView> {
        let player = self.moved(elapsed_ms, key);
        seq![CommandView::ClearScreen { background: Color::Navy }, player.sprite()]
            + self.obstacle.drawing(player.x) + seq![
            CommandView::PrintText { col: 1, row: 0, text: "Press SPACE to Flap"@ },
        ]
    }

    /// The session after one tick at a prompt: restarted if `P` was pressed,
    /// else as it was.
    pub open spec fn prompt(self, key: Option<Key>, gap_y: int) -> StateView {
        if key == Some(Key::P) {
            self.restart(gap_y)
        } else {
            self
        }
    }

    /// The session after one tick, where `gap_y` is the row drawn for the
    /// gap of a new wall, if the tick generates one.
    pub open spec fn tick(self, elapsed_ms: int, key: Option<Key>, gap_y: int) -> StateView {
        match self.mode {
            GameMode::Menu => self.prompt(key, gap_y),
            GameMode::Playing => self.play(elapsed_ms, key, gap_y),
            GameMode::End => self.prompt(key, gap_y),
        }
    }

    /// Whether one tick generates a new wall.
    pub open spec fn generates(self, elapsed_ms: int, key: Option<Key>) -> bool {
        match self.mode {
            GameMode::Menu => key == Some(Key::P),
            GameMode::Playing => self.passes(elapsed_ms, key),
            GameMode::End => key == Some(Key::P),
        }
    }

    /// The commands of one tick, in order.
    pub open spec fn frame(self, elapsed_ms: int, key: Option<Key>) -> Seq<CommandView> {
        match self.mode {
            GameMode::Menu => menu_screen() + quit_request(key),
            GameMode::Playing => self.play_frame(elapsed_ms, key),
            GameMode::End => end_screen() + quit_request(key),
        }
    }

    /// What every session satisfies: its dragon and its wall are well
    /// formed, the wall stands in world space, and the score is not negative.
    pub open spec fn wf(self) -> bool {
        &&& self.player.wf()
        &&& self.obstacle.wf()
        &&& self.obstacle.x >= 0
        &&& self.score >= 0
    }

    /// Whether one more tick of play stays within what `i32` can hold: the
    /// dragon can move a step and get a wall one screen ahead of it, it can
    /// flap, and the score can grow.
    pub open spec fn room_to_play(self) -> bool {
        &&& self.player.x + 1 + SCREEN_WIDTH <= i32::MAX
        &&& self.player.y + 2 <= i32::MAX
        &&& self.player.y_velocity - FLAP_IMPULSE >= i32::MIN
        &&& self.score + 1 <= i32::MAX
    }

    /// Whether one more tick stays within what `i32` can hold; at a prompt
    /// every tick does.
    pub open spec fn can_tick(self) -> bool {
        self.mode == GameMode::Playing ==> self.room_to_play()
    }
}

impl View for State {
    type V = StateView;

    open spec fn view(&self) -> StateView {
        StateView {
            player: self.player@,
            score: self.score as int,
            obstacle: self.obstacle@,
            frame_time: self.frame_time as int,
            mode: self.mode,
        }
    }
}

impl State {
    /// See [`StateView::wf`].
    pub open spec fn wf(&self) -> bool {
        self@.wf()
    }

    /// See [`StateView::can_tick`].
    pub open spec fn can_tick(&self) -> bool {
        self@.can_tick()
    }

    /// A session in the menu that draws its gaps from the given source.
    pub fn with_rng(rng: RandomNumberGenerator) -> (state: State)
        ensures
            state@ == StateView::initial(state.obstacle.gap_y as int),
            state.wf(),
            state.can_tick(),
    {
        // The gap of the first wall is drawn at once, so the session holds the
        // source as that draw left it. Of a draw only its range is known:
        // the contract says what holds whichever row came back, and
        // `with_gap` says what the session is for each row.
        let mut rng = rng;
        let gap_y: i32 = Obstacle::new(SCREEN_WIDTH, 0, &mut rng).gap_y;
        State::with_gap(gap_y, rng)
    }

    /// A session in the menu with a random source of its own, seeded by the
    /// operating system.
    pub fn new() -> (state: State)
        ensures
            state@ == StateView::initial(state.obstacle.gap_y as int),
            state.wf(),
            state.can_tick(),
    {
        State::with_rng(RandomNumberGenerator::new())
    }

    /// A session in the menu whose first wall has its gap centered in row
    /// `gap_y`, and which draws every later gap from the given source. The
    /// source is taken as it is: nothing is drawn from it here.
    pub fn with_gap(gap_y: i32, rng: RandomNumberGenerator) -> (state: State)
        ensures
            state@ == StateView::initial(gap_y as int),
            state.rng == rng,
            state.wf() <==> GAP_CENTER_MIN <= gap_y < GAP_CENTER_END,
            state.can_tick(),
    {
        State {
            player: Player::new(),
            score: 0,
            obstacle: Obstacle::with_gap(SCREEN_WIDTH, 0, gap_y),
            frame_time: 0,
            mode: GameMode::Menu,
            rng,
        }
    }

    /// Whether the session is well formed.
    pub fn is_wf(&self) -> (wf: bool)
        ensures
            wf == self.wf(),
    {
        self.player.x >= 0 && self.player.y >= 0 && self.player.x_velocity == FORWARD_VELOCITY
            && self.player.y_velocity <= TERMINAL_VELOCITY && GAP_CENTER_MIN <= self.obstacle.gap_y
            && self.obstacle.gap_y < GAP_CENTER_END && NARROWEST_GAP <= self.obstacle.gap_size
            && self.obstacle.gap_size <= WIDEST_GAP && self.obstacle.x >= 0 && self.score >= 0
    }

    /// Whether the session has room for one more tick.
    pub fn has_room(&self) -> (room: bool)
        ensures
            room == self.can_tick(),
    {
        match self.mode {
            GameMode::Playing => self.player.x < i32::MAX - SCREEN_WIDTH && self.player.y
                <= i32::MAX - 2 && self.player.y_velocity >= i32::MIN + FLAP_IMPULSE && self.score
                < i32::MAX,
            _ => true,
        }
    }

    /// Starts a run: a new dragon, a new wall one screen ahead of it, the
    /// timer at zero. The score is kept.
    pub fn restart(&mut self)
        requires
            old(self).score >= 0,
        ensures
            final(self)@ == old(self)@.restart(final(self).obstacle.gap_y as int),
            final(self).obstacle.wf(),
            old(self).wf() ==> final(self).wf(),
    {
        self.player = Player::new();
        self.frame_time = 0;
        self.obstacle = Obstacle::new(self.player.x + SCREEN_WIDTH, self.score, &mut self.rng);
        self.mode = GameMode::Playing;
    }

    /// One tick in the menu: shows the menu, then starts a run on `P` and
    /// asks to quit on `Q`. Any other key, and no key, changes nothing.
    pub fn main_menu(&mut self, key: Option<Key>) -> (frame: Vec<RenderCommand>)
        requires
            old(self).score >= 0,
        ensures
            final(self)@ == old(self)@.prompt(key, final(self).obstacle.gap_y as int),
            views(frame@) == menu_screen() + quit_request(key),
            key != Some(Key::P) ==> *final(self) == *old(self),
            key == Some(Key::P) ==> final(self).obstacle.wf(),
            old(self).wf() ==> final(self).wf(),
    {
        let mut frame: Vec<RenderCommand> = Vec::new();
        frame.push(RenderCommand::ClearScreen { background: Color::Black });
        frame.push(RenderCommand::print(1, 1, "Flappy Dragon v0.0.1"));
        frame.push(RenderCommand::print_centered(5, "Welcome to Flappy Dragon!"));
        frame.push(RenderCommand::print_centered(8, "(P) Play Game"));
        frame.push(RenderCommand::print_centered(9, "(Q) Quit Game"));
        assert(views(frame@) =~= menu_screen());
        self.answer_prompt(key, &mut frame);
        frame
    }

    /// One tick after a death: shows the end screen, then starts a run on
    /// `P` and asks to quit on `Q`. Any other key, and no key, changes nothing.
    pub fn dead(&mut self, key: Option<Key>) -> (frame: Vec<RenderCommand>)
        requires
            old(self).score >= 0,
        ensures
            final(self)@ == old(self)@.prompt(key, final(self).obstacle.gap_y as int),
            views(frame@) == end_screen() + quit_request(key),
            key != Some(Key::P) ==> *final(self) == *old(self),
            key == Some(Key::P) ==> final(self).obstacle.wf(),
            old(self).wf() ==> final(self).wf(),
    {
        let mut frame: Vec<RenderCommand> = Vec::new();
        frame.push(RenderCommand::ClearScreen { background: Color::Black });
        frame.push(RenderCommand::print(1, 1, "Flappy Dragon v0.0.1"));
        frame.push(RenderCommand::print_centered(5, "You are DEAD!"));
        frame.push(RenderCommand::print_centered(8, "(P) Play Again"));
        frame.push(RenderCommand::print_centered(9, "(Q) Quit Game"));
        assert(views(frame@) =~= end_screen());
        self.answer_prompt(key, &mut frame);
        frame
    }

    /// What both prompts do with a key.
    fn answer_prompt(&mut self, key: Option<Key>, frame: &mut Vec<RenderCommand>)
        requires
            old(self).score >= 0,
        ensures
            final(self)@ == old(self)@.prompt(key, final(self).obstacle.gap_y as int),
            views(final(frame)@) == views(old(frame)@) + quit_request(key),
            key != Some(Key::P) ==> *final(self) == *old(self),
            key == Some(Key::P) ==> final(self).obstacle.wf(),
            old(self).wf() ==> final(self).wf(),
    {
        match key {
            Some(Key::P) => {
                self.restart();
                assert(views(frame@) =~= views(frame@) + quit_request(key));
            },
            Some(Key::Q) => {
                proof {
                    lemma_views_push(frame@, RenderCommand::RequestQuit);
                    assert(views(frame@).push(CommandView::RequestQuit) =~= views(frame@)
                        + quit_request(key));
                }
                frame.push(RenderCommand::RequestQuit);
            },
            _ => {
                assert(views(frame@) =~= views(frame@) + quit_request(key));
            },
        }
    }

    /// One tick of play.
    pub fn play(&mut self, elapsed_ms: u32, key: Option<Key>) -> (frame: Vec<RenderCommand>)
        requires
            old(self).wf(),
            old(self)@.room_to_play(),
        ensures
            final(self)@ == old(self)@.play(
                elapsed_ms as int,
                key,
                final(self).obstacle.gap_y as int,
            ),
            views(frame@) == old(self)@.play_frame(elapsed_ms as int, key),
            !old(self)@.passes(elapsed_ms as int, key) ==> final(self).rng == old(self).rng,
            final(self).wf(),
    {
        let mut frame: Vec<RenderCommand> = Vec::new();
        frame.push(RenderCommand::ClearScreen { background: Color::Navy });
        let total: u64 = self.frame_time as u64 + elapsed_ms as u64;
        if total > FRAME_DURATION as u64 {
            self.frame_time = 0;
            self.player.gravity();
            self.player.motion();
        } else {
            self.frame_time = total as u32;
        }
        if let Some(Key::Space) = key {
            self.player.flap();
        }
        frame.push(self.player.render());
        let mut wall = self.obstacle.render(self.player.x);
        proof {
            lemma_views_add(frame@, wall@);
        }
        frame.append(&mut wall);
        if self.player.x > self.obstacle.x {
            self.score += 1;
            self.obstacle = Obstacle::new(self.player.x + SCREEN_WIDTH, self.score, &mut self.rng);
        }
        let hint = RenderCommand::print(1, 0, "Press SPACE to Flap");
        proof {
            lemma_views_push(frame@, hint);
        }
        frame.push(hint);
        if self.player.y > SCREEN_HEIGHT || self.obstacle.lethal_interaction(&self.player) {
            self.mode = GameMode::End;
        }
        assert(views(frame@) =~= old(self)@.play_frame(elapsed_ms as int, key));
        frame
    }

    /// One tick of the session: `elapsed_ms` milliseconds after the tick
    /// before, with the key that was pressed since, if any.
    ///
    /// Returns the commands that draw the frame, in order. The session
    /// changes as its model does, with the row of a new gap left to the
    /// random source; unless a wall is generated, the source is not touched.
    /// At a prompt, a tick without `P` changes nothing at all.
    pub fn tick(&mut self, elapsed_ms: u32, key: Option<Key>) -> (frame: Vec<RenderCommand>)
        requires
            old(self).wf(),
            old(self).can_tick(),
        ensures
            final(self)@ == old(self)@.tick(
                elapsed_ms as int,
                key,
                final(self).obstacle.gap_y as int,
            ),
            views(frame@) == old(self)@.frame(elapsed_ms as int, key),
            !old(self)@.generates(elapsed_ms as int, key) ==> final(self).rng == old(self).rng,
            old(self).mode != GameMode::Playing && key != Some(Key::P) ==> *final(self) == *old(
                self,
            ),
            final(self).wf(),
    {
        match self.mode {
            GameMode::Menu => self.main_menu(key),
            GameMode::Playing => self.play(elapsed_ms, key),
            GameMode::End => self.dead(key),
        }
    }
}

/// At a prompt, a tick with a key other than `P` and `Q`, or with no key,
/// leaves the session as it was, shows the prompt and does not ask to quit.
pub proof fn lemma_prompt_ignores_other_keys(
    state: StateView,
    elapsed_ms: int,
    key: Option<Key>,
    gap_y: int,
)
    requires
        state.mode != GameMode::Playing,
        key != Some(Key::P),
        key != Some(Key::Q),
    ensures
        state.tick(elapsed_ms, key, gap_y) == state,
        !state.generates(elapsed_ms, key),
        state.frame(elapsed_ms, key) == if state.mode == GameMode::Menu {
            menu_screen()
        } else {
            end_screen()
        },
        !state.frame(elapsed_ms, key).contains(CommandView::RequestQuit),
{
    assert(menu_screen() + quit_request(key) =~= menu_screen());
    assert(end_screen() + quit_request(key) =~= end_screen());
}

/// A frame asks to quit exactly when `Q` is pressed at a prompt, and then
/// the request is its last command.
pub proof fn lemma_quit_is_requested_by_q_at_a_prompt(
    state: StateView,
    elapsed_ms: int,
    key: Option<Key>,
)
    ensures
        state.frame(elapsed_ms, key).contains(CommandView::RequestQuit) <==> state.mode
            != GameMode::Playing && key == Some(Key::Q),
        state.mode != GameMode::Playing && key == Some(Key::Q) ==> state.frame(
            elapsed_ms,
            key,
        ).last() == CommandView::RequestQuit,
{
    let frame = state.frame(elapsed_ms, key);
    if state.mode != GameMode::Playing && key == Some(Key::Q) {
        assert(frame[5] == CommandView::RequestQuit);
    } else {
        assert forall|i: int| 0 <= i < frame.len() implies frame[i] != CommandView::RequestQuit by {
            if state.mode == GameMode::Playing {
                let player = state.moved(elapsed_ms, key);
                let wall = state.obstacle.drawing(player.x);
                if 2 <= i < 2 + wall.len() {
                    assert(frame[i] == wall[i - 2]);
                }
            } else {
                assert(quit_request(key) =~= Seq::empty());
            }
        }
    }
}

/// The score never falls. A tick adds one to it when the dragon passes the
/// wall during play, and leaves it alone otherwise; a restart keeps it.
pub proof fn lemma_score_counts_walls_passed(
    state: StateView,
    elapsed_ms: int,
    key: Option<Key>,
    gap_y: int,
)
    ensures
        state.tick(elapsed_ms, key, gap_y).score == if state.mode == GameMode::Playing
            && state.passes(elapsed_ms, key) {
            state.score + 1
        } else {
            state.score
        },
        state.restart(gap_y).score == state.score,
{
}

/// A wall that was passed is replaced at once by one a whole screen ahead of
/// the dragon, which the dragon has neither passed nor hit: no wall is
/// scored twice.
pub proof fn lemma_passed_wall_is_replaced(
    state: StateView,
    elapsed_ms: int,
    key: Option<Key>,
    gap_y: int,
)
    requires
        state.mode == GameMode::Playing,
        state.passes(elapsed_ms, key),
    ensures
        ({
            let next = state.tick(elapsed_ms, key, gap_y);
            &&& next.obstacle == ObstacleView::generated(
                next.player.x + SCREEN_WIDTH,
                state.score + 1,
                gap_y,
            )
            &&& !(next.player.x > next.obstacle.x)
            &&& !next.obstacle.lethal(next.player)
        }),
{
}

/// A dragon that is below the screen after its physics ends the run in
/// that tick, wherever the wall is.
pub proof fn lemma_fall_is_fatal(state: StateView, elapsed_ms: int, key: Option<Key>, gap_y: int)
    requires
        state.mode == GameMode::Playing,
        state.moved(elapsed_ms, key).y > SCREEN_HEIGHT,
    ensures
        state.tick(elapsed_ms, key, gap_y).mode == GameMode::End,
{
}

/// A run ends only from play, and a run starts only by `P` at a prompt.
pub proof fn lemma_mode_transitions(
    state: StateView,
    elapsed_ms: int,
    key: Option<Key>,
    gap_y: int,
)
    ensures
        ({
            let next = state.tick(elapsed_ms, key, gap_y);
            match state.mode {
                GameMode::Menu => next.mode == if key == Some(Key::P) {
                    GameMode::Playing
                } else {
                    GameMode::Menu
                },
                GameMode::Playing => next.mode == if next.player.y > SCREEN_HEIGHT
                    || next.obstacle.lethal(next.player) {
                    GameMode::End
                } else {
                    GameMode::Playing
                },
                GameMode::End => next.mode == if key == Some(Key::P) {
                    GameMode::Playing
                } else {
                    GameMode::End
                },
            }
        }),
{
}

/// A tick keeps a well-formed session well formed, whichever row is drawn
/// for a new gap.
pub proof fn lemma_tick_preserves_wf(
    state: StateView,
    elapsed_ms: int,
    key: Option<Key>,
    gap_y: int,
)
    requires
        state.wf(),
        GAP_CENTER_MIN <= gap_y < GAP_CENTER_END,
    ensures
        state.tick(elapsed_ms, key, gap_y).wf(),
{
}

} // verus!
