//! The game's bodies, its two states and the rules that run each frame.
use vstd::prelude::*;
use crate::collision::{boxes_touch, transforms_touch};
use crate::motion::{Acceleration, Point, Transform, Velocity};
use crate::timer::{leftover, PipeSpawnTimer};
use crate::units::{
    CEILING_MARGIN, GRAVITY_STRENGTH, JUMP_STRENGTH, PIPE_BOTTOM_MAX, PIPE_BOTTOM_MIN, PIPE_GAP,
    PIPE_HEIGHT, PIPE_SPEED, PIPE_WIDTH, PLAYER_SIZE, PLAYER_START_X, HALF_WINDOW_HEIGHT,
    HALF_WINDOW_WIDTH, PIPE_SPAWN_PERIOD, WINDOW_WIDTH,
};

verus! {

/// The two phases of a round.
#[derive(Clone, Copy, Debug, PartialEq, Eq, Structural)]
pub enum GameStates {
    InGame,
    GameOver,
}

/// The sprite that the player steers.
#[derive(Clone, Copy, Debug, PartialEq, Eq, Structural)]
pub struct Player {
    pub transform: Transform,
    pub velocity: Velocity,
    pub acceleration: Acceleration,
}

/// One obstacle. `give_score` is set on the upper pipe of each pair until
/// the player has passed it.
#[derive(Clone, Copy, Debug, PartialEq, Eq, Structural)]
pub struct Pipe {
    pub transform: Transform,
    pub velocity: Velocity,
    pub give_score: bool,
}

/// The player as it appears at the start of a round: at rest, left of the
/// centre, under gravity.
pub open spec fn spec_make_player() -> Player {
    Player {
        transform: Transform {
            translation: Point { x: PLAYER_START_X, y: 0 },
            scale: Point { x: PLAYER_SIZE, y: PLAYER_SIZE },
        },
        velocity: Velocity { x: 0, y: 0 },
        acceleration: Acceleration { x: 0, y: (-GRAVITY_STRENGTH) as i64 },
    }
}

/// The player as it appears at the start of a round.
pub fn make_player() -> (r: Player)
    ensures
        r == spec_make_player(),
{
    Player {
        transform: Transform {
            translation: Point { x: PLAYER_START_X, y: 0 },
            scale: Point { x: PLAYER_SIZE, y: PLAYER_SIZE },
        },
        velocity: Velocity::zero(),
        acceleration: Acceleration::gravity(),
    }
}

/// Half of `h`, rounded toward zero as integer division does.
pub open spec fn half_toward_zero(h: int) -> int {
    if h >= 0 {
        h / 2
    } else {
        -((-h) / 2)
    }
}

impl Pipe {
    /// A pipe of the given height whose top edge is at `y`, entering at the
    /// right edge of the field and scrolling left.
    pub open spec fn spec_new(height: i64, y: i64, give_score: bool) -> Pipe {
        Pipe {
            transform: Transform {
                translation: Point { x: HALF_WINDOW_WIDTH, y: (y - half_toward_zero(height as int)) as i64 },
                scale: Point { x: PIPE_WIDTH, y: height },
            },
            velocity: Velocity { x: (-PIPE_SPEED) as i64, y: 0 },
            give_score,
        }
    }

    /// A pipe of the given height whose top edge is at `y`, entering at the
    /// right edge of the field and scrolling left.
    pub fn new(height: i64, y: i64, give_score: bool) -> (r: Pipe)
        requires
            i64::MIN <= y - half_toward_zero(height as int) <= i64::MAX,
        ensures
            r == Self::spec_new(height, y, give_score),
    {
        Pipe {
            transform: Transform {
                translation: Point { x: HALF_WINDOW_WIDTH, y: y - height / 2 },
                scale: Point { x: PIPE_WIDTH, y: height },
            },
            velocity: Velocity { x: -PIPE_SPEED, y: 0 },
            give_score,
        }
    }
}

/// Whether a pair of pipes can be placed with the lower one's top edge at
/// `bottom_pos` without leaving the range of `i64`.
pub open spec fn pipe_pair_fits(bottom_pos: i64) -> bool {
    &&& i64::MIN <= bottom_pos - PIPE_HEIGHT / 2
    &&& bottom_pos + PIPE_HEIGHT + PIPE_GAP <= i64::MAX
}

/// The pair of pipes whose opening starts at `bottom_pos`: first the upper
/// pipe, which scores, then the lower one.
pub open spec fn pipe_pair(bottom_pos: i64) -> Seq<Pipe> {
    seq![
        Pipe::spec_new(PIPE_HEIGHT, (bottom_pos + PIPE_HEIGHT + PIPE_GAP) as i64, true),
        Pipe::spec_new(PIPE_HEIGHT, bottom_pos, false),
    ]
}

/// Whether a pipe has scrolled far enough left to be removed.
pub open spec fn is_offscreen(p: Pipe) -> bool {
    p.transform.translation.x < -WINDOW_WIDTH
}

/// Whether a pipe's right edge is strictly left of the player's left edge
/// (both sides doubled, so that half widths stay whole).
pub open spec fn is_passed(player: Player, p: Pipe) -> bool {
    2 * p.transform.translation.x + p.transform.scale.x
        < 2 * player.transform.translation.x - player.transform.scale.x
}

/// Whether a pipe earns a point now: it still carries its point and the
/// player has passed it.
pub open spec fn scores(player: Player, p: Pipe) -> bool {
    p.give_score && is_passed(player, p)
}

/// A pipe after the scoring rule: its point is spent once it scores.
pub open spec fn after_scoring(player: Player, p: Pipe) -> Pipe {
    if scores(player, p) {
        Pipe { give_score: false, ..p }
    } else {
        p
    }
}

/// A player after `dt` microseconds of its own acceleration.
pub open spec fn accelerated_player(p: Player, dt: int) -> Player {
    Player { velocity: p.velocity.accelerated(p.acceleration, dt), ..p }
}

/// A player after `dt` microseconds at its own velocity.
pub open spec fn moved_player(p: Player, dt: int) -> Player {
    Player { transform: p.transform.moved(p.velocity, dt), ..p }
}

/// A pipe after `dt` microseconds at its own velocity.
pub open spec fn moved_pipe(p: Pipe, dt: int) -> Pipe {
    Pipe { transform: p.transform.moved(p.velocity, dt), ..p }
}

/// Whether every pipe can move for `dt` microseconds within the range of
/// `i64`.
pub open spec fn pipes_move_fits(pipes: Seq<Pipe>, dt: int) -> bool {
    forall|i: int| 0 <= i < pipes.len() ==> (#[trigger] pipes[i]).transform.moved_fits(pipes[i].velocity, dt)
}

/// A player whose vertical speed is set to `vy`.
pub open spec fn with_vertical_speed(p: Player, vy: i64) -> Player {
    Player { velocity: Velocity { x: p.velocity.x, y: vy }, ..p }
}

/// A pipe scores at most once: after the scoring rule has run for a
/// player, running it again for the same player finds no pipe that scores.
pub proof fn lemma_pipe_scores_once(player: Player, pipes: Seq<Pipe>)
    ensures
        pipes.map_values(|q: Pipe| after_scoring(player, q)).filter(|q: Pipe| scores(player, q)).len()
            == 0,
{
    let pred = |q: Pipe| scores(player, q);
    let spent = pipes.map_values(|q: Pipe| after_scoring(player, q));
    if spent.filter(pred).len() > 0 {
        let x = spent.filter(pred)[0];
        spent.lemma_filter_pred(pred, 0);
        spent.lemma_filter_contains_rev(pred, x);
    }
}

/// Whether the player touches any of the pipes.
pub open spec fn hits_any(player: Player, pipes: Seq<Pipe>) -> bool {
    exists|i: int| 0 <= i < pipes.len() && boxes_touch(player.transform, #[trigger] pipes[i].transform)
}

/// Whether a player is below the bottom edge of the field.
pub open spec fn below_floor(player: Player) -> bool {
    player.transform.translation.y < -HALF_WINDOW_HEIGHT
}

/// Whether a player is more than the ceiling margin above the top edge.
pub open spec fn above_ceiling(player: Player) -> bool {
    player.transform.translation.y - CEILING_MARGIN > HALF_WINDOW_HEIGHT
}

/// Relies on `rand::rng` and `rand::Rng::random_range`: an integer drawn
/// from the half-open range `lo..hi`, which must not be empty.
#[verifier::external_body]
fn random_in_range(lo: i64, hi: i64) -> (r: i64)
    requires
        lo < hi,
    ensures
        lo <= r < hi,
{
    rand::Rng::random_range(&mut rand::rng(), lo..hi)
}

/// Everything the game keeps between frames.
pub struct World {
    /// The phase that is running.
    pub state: GameStates,
    /// A phase asked for this frame, entered by `apply_transition`.
    pub next_state: Option<GameStates>,
    /// The player, while a round is on.
    pub player: Option<Player>,
    /// The pipes on the field, in the order they were spawned.
    pub pipes: Vec<Pipe>,
    /// Pairs passed in this round.
    pub score: i64,
    /// Paces the spawning of pipe pairs.
    pub spawn_timer: PipeSpawnTimer,
}

/// Failure of a motion step: a coordinate would leave the range of `i64`.
#[derive(Clone, Copy, Debug, PartialEq, Eq, Structural)]
pub enum MotionError {
    Overflow,
}

impl World {
    /// A round is on exactly while there is a player, and the score is
    /// never negative.
    pub open spec fn wf(&self) -> bool {
        &&& (self.state == GameStates::InGame) == self.player.is_some()
        &&& 0 <= self.score
    }

    /// The world when the game starts: a round is on, with a fresh player,
    /// no pipes and no points.
    pub fn new() -> (r: World)
        ensures
            r.state == GameStates::InGame,
            r.next_state.is_none(),
            r.player == Some(spec_make_player()),
            r.pipes@.len() == 0,
            r.score == 0,
            r.spawn_timer.elapsed_micros() == 0,
            r.spawn_timer.period_micros() == PIPE_SPAWN_PERIOD,
            !r.spawn_timer.last_finished(),
            r.wf(),
    {
        World {
            state: GameStates::InGame,
            next_state: None,
            player: Some(make_player()),
            pipes: Vec::new(),
            score: 0,
            spawn_timer: PipeSpawnTimer::new(),
        }
    }

    /// Entering a round: a fresh player appears.
    pub fn on_enter_game(&mut self)
        ensures
            final(self).player == Some(spec_make_player()),
            final(self).state == old(self).state,
            final(self).next_state == old(self).next_state,
            final(self).pipes@ == old(self).pipes@,
            final(self).score == old(self).score,
            final(self).spawn_timer == old(self).spawn_timer,
    {
        self.player = Some(make_player());
    }

    /// Entering the end of a round: the player disappears.
    pub fn on_game_over(&mut self)
        ensures
            final(self).player.is_none(),
            final(self).state == old(self).state,
            final(self).next_state == old(self).next_state,
            final(self).pipes@ == old(self).pipes@,
            final(self).score == old(self).score,
            final(self).spawn_timer == old(self).spawn_timer,
    {
        self.player = None;
    }

    /// Leaving the end of a round: the pipes are cleared, the score starts
    /// again from zero and so does the spawn period.
    pub fn on_game_restart(&mut self)
        ensures
            final(self).pipes@.len() == 0,
            final(self).score == 0,
            final(self).spawn_timer.elapsed_micros() == 0,
            final(self).spawn_timer.period_micros() == old(self).spawn_timer.period_micros(),
            !final(self).spawn_timer.last_finished(),
            final(self).state == old(self).state,
            final(self).next_state == old(self).next_state,
            final(self).player == old(self).player,
    {
        self.pipes = Vec::new();
        self.score = 0;
        self.spawn_timer.reset();
    }

    /// Enters the phase that was asked for, if it differs from the running
    /// one: the hook of the phase left runs first, then that of the phase
    /// entered. The request is consumed either way.
    pub fn apply_transition(&mut self)
        ensures
            final(self).next_state.is_none(),
            match old(self).next_state {
                Some(s) if s != old(self).state => {
                    &&& final(self).state == s
                    &&& final(self).player == (if s == GameStates::InGame {
                        Some(spec_make_player())
                    } else {
                        None
                    })
                    &&& final(self).pipes@ == (if s == GameStates::InGame {
                        Seq::<Pipe>::empty()
                    } else {
                        old(self).pipes@
                    })
                    &&& final(self).score == (if s == GameStates::InGame {
                        0
                    } else {
                        old(self).score
                    })
                    &&& final(self).spawn_timer.period_micros()
                        == old(self).spawn_timer.period_micros()
                    &&& if s == GameStates::InGame {
                        final(self).spawn_timer.elapsed_micros() == 0
                            && !final(self).spawn_timer.last_finished()
                    } else {
                        final(self).spawn_timer == old(self).spawn_timer
                    }
                },
                _ => {
                    &&& final(self).state == old(self).state
                    &&& final(self).player == old(self).player
                    &&& final(self).pipes@ == old(self).pipes@
                    &&& final(self).score == old(self).score
                    &&& final(self).spawn_timer == old(self).spawn_timer
                },
            },
            old(self).wf() ==> final(self).wf(),
    {
        let requested = self.next_state;
        self.next_state = None;
        match requested {
            Some(s) => {
                if s != self.state {
                    match self.state {
                        GameStates::GameOver => self.on_game_restart(),
                        GameStates::InGame => {},
                    }
                    match s {
                        GameStates::InGame => self.on_enter_game(),
                        GameStates::GameOver => self.on_game_over(),
                    }
                    self.state = s;
                }
            },
            None => {},
        }
    }

    /// A jump: while there is a player, a press sets its upward speed.
    pub fn handle_movement(&mut self, jump_pressed: bool)
        ensures
            final(self).player == (match old(self).player {
                Some(p) if jump_pressed => Some(with_vertical_speed(p, JUMP_STRENGTH)),
                other => other,
            }),
            final(self).state == old(self).state,
            final(self).next_state == old(self).next_state,
            final(self).pipes@ == old(self).pipes@,
            final(self).score == old(self).score,
            old(self).wf() ==> final(self).wf(),
            final(self).spawn_timer == old(self).spawn_timer,
    {
        if jump_pressed {
            match self.player {
                Some(p) => {
                    let mut q = p;
                    q.velocity.y = JUMP_STRENGTH;
                    self.player = Some(q);
                },
                None => {},
            }
        }
    }

    /// Advances the player's velocity by its acceleration over `dt`
    /// microseconds. Fails, changing nothing, where a component of the new
    /// velocity would not fit in an `i64`.
    pub fn apply_acceleration(&mut self, dt: u32) -> (r: Result<(), MotionError>)
        ensures
            r is Ok <==> (match old(self).player {
                Some(p) => p.velocity.accelerated_fits(p.acceleration, dt as int),
                None => true,
            }),
            final(self).player == (match old(self).player {
                Some(p) if r is Ok => Some(accelerated_player(p, dt as int)),
                other => other,
            }),
            final(self).state == old(self).state,
            final(self).next_state == old(self).next_state,
            final(self).pipes@ == old(self).pipes@,
            final(self).score == old(self).score,
            old(self).wf() ==> final(self).wf(),
            final(self).spawn_timer == old(self).spawn_timer,
    {
        match self.player {
            Some(p) => match p.velocity.checked_accelerate(&p.acceleration, dt) {
                Some(v) => {
                    let mut q = p;
                    q.velocity = v;
                    self.player = Some(q);
                    Ok(())
                },
                None => Err(MotionError::Overflow),
            },
            None => Ok(()),
        }
    }

    /// Moves the player and every pipe by its velocity over `dt`
    /// microseconds. Fails, changing nothing, where some position would not
    /// fit in an `i64`.
    pub fn apply_velocity(&mut self, dt: u32) -> (r: Result<(), MotionError>)
        ensures
            r is Ok <==> (match old(self).player {
                Some(p) => p.transform.moved_fits(p.velocity, dt as int),
                None => true,
            } && pipes_move_fits(old(self).pipes@, dt as int)),
            r is Ok ==> final(self).player == (match old(self).player {
                Some(p) => Some(moved_player(p, dt as int)),
                None => None,
            }),
            r is Ok ==> final(self).pipes@ == old(self).pipes@.map_values(
                |p: Pipe| moved_pipe(p, dt as int),
            ),
            r is Err ==> final(self).player == old(self).player,
            r is Err ==> final(self).pipes@ == old(self).pipes@,
            final(self).state == old(self).state,
            final(self).next_state == old(self).next_state,
            final(self).score == old(self).score,
            old(self).wf() ==> final(self).wf(),
            final(self).spawn_timer == old(self).spawn_timer,
    {
        let player = match self.player {
            Some(p) => match p.transform.checked_move(&p.velocity, dt) {
                Some(t) => Some(Player { transform: t, ..p }),
                None => {
                    return Err(MotionError::Overflow);
                },
            },
            None => None,
        };
        let mut moved: Vec<Pipe> = Vec::new();
        let n = self.pipes.len();
        let mut i: usize = 0;
        while i < n
            invariant
                n == self.pipes@.len(),
                i <= n,
                moved@.len() == i,
                forall|j: int| 0 <= j < i ==> (#[trigger] self.pipes@[j]).transform.moved_fits(self.pipes@[j].velocity, dt as int),
                forall|j: int| 0 <= j < i ==> #[trigger] moved@[j] == moved_pipe(self.pipes@[j], dt as int),
            decreases n - i,
        {
            let p = self.pipes[i];
            match p.transform.checked_move(&p.velocity, dt) {
                Some(t) => moved.push(Pipe { transform: t, ..p }),
                None => {
                    return Err(MotionError::Overflow);
                },
            }
            i = i + 1;
        }
        assert(moved@ =~= self.pipes@.map_values(|p: Pipe| moved_pipe(p, dt as int)));
        self.player = player;
        self.pipes = moved;
        Ok(())
    }

    /// Adds the pair of pipes whose opening starts at `bottom_pos`, upper
    /// pipe first.
    pub fn spawn_pipe_pair(&mut self, bottom_pos: i64)
        requires
            pipe_pair_fits(bottom_pos),
        ensures
            final(self).pipes@ == old(self).pipes@ + pipe_pair(bottom_pos),
            final(self).state == old(self).state,
            final(self).next_state == old(self).next_state,
            final(self).player == old(self).player,
            final(self).score == old(self).score,
            old(self).wf() ==> final(self).wf(),
            final(self).spawn_timer == old(self).spawn_timer,
    {
        let upper = Pipe::new(PIPE_HEIGHT, bottom_pos + PIPE_HEIGHT + PIPE_GAP, true);
        let lower = Pipe::new(PIPE_HEIGHT, bottom_pos, false);
        self.pipes.push(upper);
        self.pipes.push(lower);
        assert(self.pipes@ =~= old(self).pipes@ + pipe_pair(bottom_pos));
    }

    /// When a spawn is due, adds a pair of pipes with its opening at a
    /// random height: the lower pipe's top edge is drawn from
    /// `PIPE_BOTTOM_MIN..PIPE_BOTTOM_MAX`.
    pub fn spawn_pipes_if_due(&mut self, spawn_due: bool)
        ensures
            !spawn_due ==> final(self).pipes@ == old(self).pipes@,
            spawn_due ==> exists|b: i64|
                PIPE_BOTTOM_MIN <= b < PIPE_BOTTOM_MAX && final(self).pipes@ == old(self).pipes@
                    + #[trigger] pipe_pair(b),
            final(self).state == old(self).state,
            final(self).next_state == old(self).next_state,
            final(self).player == old(self).player,
            final(self).score == old(self).score,
            old(self).wf() ==> final(self).wf(),
            final(self).spawn_timer == old(self).spawn_timer,
    {
        if spawn_due {
            let bottom_pos = random_in_range(PIPE_BOTTOM_MIN, PIPE_BOTTOM_MAX);
            self.spawn_pipe_pair(bottom_pos);
        }
    }

    /// Lets `delta_micros` microseconds pass on the spawn timer and, when a
    /// period runs out during them, adds a pair of pipes at a random height.
    pub fn handle_pipe_spawn(&mut self, delta_micros: u64)
        ensures
            old(self).spawn_timer.elapsed_micros() + delta_micros
                < old(self).spawn_timer.period_micros() ==> final(self).pipes@ == old(self).pipes@,
            old(self).spawn_timer.elapsed_micros() + delta_micros
                >= old(self).spawn_timer.period_micros() ==> exists|b: i64|
                PIPE_BOTTOM_MIN <= b < PIPE_BOTTOM_MAX && final(self).pipes@ == old(self).pipes@
                    + #[trigger] pipe_pair(b),
            final(self).spawn_timer.elapsed_micros() == leftover(
                (old(self).spawn_timer.elapsed_micros() + delta_micros) as nat,
                old(self).spawn_timer.period_micros(),
            ),
            final(self).spawn_timer.period_micros() == old(self).spawn_timer.period_micros(),
            final(self).spawn_timer.last_finished() == (old(self).spawn_timer.elapsed_micros()
                + delta_micros >= old(self).spawn_timer.period_micros()),
            final(self).state == old(self).state,
            final(self).next_state == old(self).next_state,
            final(self).player == old(self).player,
            final(self).score == old(self).score,
            old(self).wf() ==> final(self).wf(),
    {
        let due = self.spawn_timer.tick(delta_micros);
        self.spawn_pipes_if_due(due);
    }

    /// Removes the pipes that have scrolled off to the left, keeping the
    /// others in order.
    pub fn handle_pipe_despawn(&mut self)
        ensures
            final(self).pipes@ == old(self).pipes@.filter(|p: Pipe| !is_offscreen(p)),
            final(self).state == old(self).state,
            final(self).next_state == old(self).next_state,
            final(self).player == old(self).player,
            final(self).score == old(self).score,
            old(self).wf() ==> final(self).wf(),
            final(self).spawn_timer == old(self).spawn_timer,
    {
        let ghost keep = |p: Pipe| !is_offscreen(p);
        let mut kept: Vec<Pipe> = Vec::new();
        let n = self.pipes.len();
        let mut i: usize = 0;
        while i < n
            invariant
                n == self.pipes@.len(),
                i <= n,
                keep == (|p: Pipe| !is_offscreen(p)),
                kept@ == self.pipes@.take(i as int).filter(keep),
                self.pipes@ == old(self).pipes@,
                self.state == old(self).state,
                self.next_state == old(self).next_state,
                self.player == old(self).player,
                self.score == old(self).score,
            decreases n - i,
        {
            let p = self.pipes[i];
            proof {
                assert(self.pipes@.take(i + 1) =~= self.pipes@.take(i as int).push(p));
                self.pipes@.take(i as int).lemma_filter_push(p, keep);
            }
            if p.transform.translation.x >= -WINDOW_WIDTH {
                kept.push(p);
            }
            i = i + 1;
        }
        assert(self.pipes@.take(n as int) =~= self.pipes@);
        self.pipes = kept;
    }

    /// Asks for the end of the round when the player touches a pipe.
    pub fn check_player_pipe_collission(&mut self)
        ensures
            final(self).next_state == (match old(self).player {
                Some(p) if hits_any(p, old(self).pipes@) => Some(GameStates::GameOver),
                _ => old(self).next_state,
            }),
            final(self).state == old(self).state,
            final(self).player == old(self).player,
            final(self).pipes@ == old(self).pipes@,
            final(self).score == old(self).score,
            old(self).wf() ==> final(self).wf(),
            final(self).spawn_timer == old(self).spawn_timer,
    {
        let player = match self.player {
            Some(p) => p,
            None => {
                return;
            },
        };
        let n = self.pipes.len();
        let mut i: usize = 0;
        while i < n
            invariant
                n == self.pipes@.len(),
                i <= n,
                self.player == Some(player),
                self.pipes@ == old(self).pipes@,
                self.state == old(self).state,
                self.next_state == old(self).next_state,
                self.player == old(self).player,
                self.score == old(self).score,
                self.spawn_timer == old(self).spawn_timer,
                forall|j: int| 0 <= j < i ==> !boxes_touch(player.transform, #[trigger] self.pipes@[j].transform),
            decreases n - i,
        {
            if transforms_touch(&player.transform, &self.pipes[i].transform) {
                self.next_state = Some(GameStates::GameOver);
                return;
            }
            i = i + 1;
        }
    }

    /// Asks for the end of the round when the player falls below the
    /// field, and takes away its vertical speed when it rises too far
    /// above it.
    pub fn check_player_screen_bounds(&mut self)
        ensures
            final(self).next_state == (match old(self).player {
                Some(p) if below_floor(p) => Some(GameStates::GameOver),
                _ => old(self).next_state,
            }),
            final(self).player == (match old(self).player {
                Some(p) if above_ceiling(p) => Some(with_vertical_speed(p, 0)),
                other => other,
            }),
            final(self).state == old(self).state,
            final(self).pipes@ == old(self).pipes@,
            final(self).score == old(self).score,
            old(self).wf() ==> final(self).wf(),
            final(self).spawn_timer == old(self).spawn_timer,
    {
        match self.player {
            Some(p) => {
                if p.transform.translation.y < -HALF_WINDOW_HEIGHT {
                    self.next_state = Some(GameStates::GameOver);
                }
                if p.transform.translation.y > HALF_WINDOW_HEIGHT + CEILING_MARGIN {
                    let mut q = p;
                    q.velocity.y = 0;
                    self.player = Some(q);
                }
            },
            None => {},
        }
    }

    /// Gives a point for each scoring pipe that the player has passed, and
    /// spends that pipe's point.
    pub fn give_score_when_over_player(&mut self)
        requires
            match old(self).player {
                Some(p) => old(self).score + old(self).pipes@.filter(|q: Pipe| scores(p, q)).len()
                    <= i64::MAX,
                None => true,
            },
        ensures
            final(self).pipes@ == (match old(self).player {
                Some(p) => old(self).pipes@.map_values(|q: Pipe| after_scoring(p, q)),
                None => old(self).pipes@,
            }),
            final(self).score == old(self).score + (match old(self).player {
                Some(p) => old(self).pipes@.filter(|q: Pipe| scores(p, q)).len() as int,
                None => 0,
            }),
            final(self).state == old(self).state,
            final(self).next_state == old(self).next_state,
            final(self).player == old(self).player,
            old(self).wf() ==> final(self).wf(),
            final(self).spawn_timer == old(self).spawn_timer,
    {
        let player = match self.player {
            Some(p) => p,
            None => {
                return;
            },
        };
        let ghost pred = |q: Pipe| scores(player, q);
        let ghost start = self.pipes@;
        let ghost start_score = self.score;
        let player_left2: i128 = 2 * (player.transform.translation.x as i128)
            - player.transform.scale.x as i128;
        let n = self.pipes.len();
        let mut i: usize = 0;
        while i < n
            invariant
                n == self.pipes@.len(),
                n == start.len(),
                i <= n,
                self.player == Some(player),
                self.state == old(self).state,
                self.next_state == old(self).next_state,
                self.spawn_timer == old(self).spawn_timer,
                start_score + start.filter(pred).len() <= i64::MAX,
                pred == (|q: Pipe| scores(player, q)),
                player_left2 == 2 * player.transform.translation.x - player.transform.scale.x,
                self.score == start_score + start.take(i as int).filter(pred).len(),
                forall|j: int| 0 <= j < i ==> #[trigger] self.pipes@[j] == after_scoring(player, start[j]),
                forall|j: int| i <= j < n ==> #[trigger] self.pipes@[j] == start[j],
            decreases n - i,
        {
            let q = self.pipes[i];
            proof {
                assert(start.take(i + 1) =~= start.take(i as int).push(q));
                start.take(i as int).lemma_filter_push(q, pred);
                start.lemma_filter_take_len(pred, i + 1);
            }
            if q.give_score {
                let right2: i128 = 2 * (q.transform.translation.x as i128) + q.transform.scale.x as i128;
                if right2 < player_left2 {
                    self.pipes.set(i, Pipe { give_score: false, ..q });
                    self.score = self.score + 1;
                }
            }
            i = i + 1;
        }
        assert(start.take(n as int) =~= start);
        assert(self.pipes@ =~= start.map_values(|q: Pipe| after_scoring(player, q)));
    }

    /// Asks for a new round when the restart key is released.
    pub fn restart_on_r(&mut self, restart_released: bool)
        ensures
            final(self).next_state == (if restart_released {
                Some(GameStates::InGame)
            } else {
                old(self).next_state
            }),
            final(self).state == old(self).state,
            final(self).player == old(self).player,
            final(self).pipes@ == old(self).pipes@,
            final(self).score == old(self).score,
            old(self).wf() ==> final(self).wf(),
            final(self).spawn_timer == old(self).spawn_timer,
    {
        if restart_released {
            self.next_state = Some(GameStates::InGame);
        }
    }
}

} // verus!
