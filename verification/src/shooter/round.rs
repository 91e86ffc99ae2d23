//! The shooter's round: waiting, playing, and the held win or game-over
//! screen before the result is reported; plus the per-entity counters that
//! drive firing and hit flashes.
use vstd::prelude::*;

use crate::shooter::db32::{CYAN, LIGHT_RED, LIME, ORANGE, PINK, PURPLE, RED, WHITE, YELLOW};
use crate::shooter::gfx::{IVec2, GAME_H, GAME_W};

verus! {

/// Ticks the win or game-over screen is held before the result is reported.
pub const DONE_HOLD: u32 = 120;

/// Ticks between two shots of the player.
pub const FIRE_COOLDOWN: u32 = 12;

/// Ticks an enemy flashes after being hit.
pub const HIT_FLASH: u32 = 12;

/// The phase of a round.
#[derive(Clone, Copy, PartialEq, Eq, Structural, Debug)]
pub enum State {
    Waiting,
    Playing,
    Win,
    GameOver,
}

impl Default for State {
    fn default() -> (s: Self)
        ensures
            s == State::Waiting,
    {
        State::Waiting
    }
}

/// What the end-of-tick bookkeeping asks of the caller.
#[derive(Clone, Copy, PartialEq, Eq, Structural, Debug)]
pub struct RoundTick {
    /// Ticks into the win animation, when the player is celebrating.
    pub win_anim: Option<u32>,
    /// The result to report to the host, on the tick the hold runs out.
    pub done: Option<bool>,
}

/// One end-of-tick step of a round: a playing round is lost when the player
/// was hit and won when no enemy is left, either way starting the hold of
/// `DONE_HOLD` ticks; the hold counts down, a won round animates, and the
/// result is reported on the tick the hold runs out.
pub open spec fn finish_spec(r: Round, player_hit: bool, enemies_empty: bool) -> (Round, RoundTick) {
    let s0 = r.state;
    let lost = s0 == State::Playing && player_hit;
    let won = s0 == State::Playing && !player_hit && enemies_empty;
    let s1 = if lost {
        State::GameOver
    } else if won {
        State::Win
    } else {
        s0
    };
    let timer = if lost || won {
        DONE_HOLD
    } else {
        r.done_timer
    };
    let win_anim = if s1 == State::Win {
        Some(
            if timer <= DONE_HOLD {
                (DONE_HOLD - timer) as u32
            } else {
                0u32
            },
        )
    } else {
        None::<u32>
    };
    let done = if timer == 1 {
        Some(s1 == State::Win)
    } else {
        None::<bool>
    };
    let next_timer = if timer > 0 {
        (timer - 1) as u32
    } else {
        0u32
    };
    (Round { state: s1, done_timer: next_timer }, RoundTick { win_anim, done })
}

/// Whether a round has ended, won or lost.
pub open spec fn ended(s: State) -> bool {
    s == State::Win || s == State::GameOver
}

/// The number of reports in `n` end-of-tick steps of a round with nothing
/// happening on the field.
pub open spec fn reports(r: Round, n: nat) -> nat
    decreases n,
{
    if n == 0 {
        0
    } else {
        let (next, t) = finish_spec(r, false, false);
        (if t.done is Some {
            1nat
        } else {
            0nat
        }) + reports(next, (n - 1) as nat)
    }
}

/// An ended round stays ended with the same outcome, whatever happens on the
/// field: hits and empty formations no longer matter.
pub proof fn lemma_end_is_final(r: Round, player_hit: bool, enemies_empty: bool)
    requires
        ended(r.state),
    ensures
        finish_spec(r, player_hit, enemies_empty).0.state == r.state,
        finish_spec(r, player_hit, enemies_empty) == finish_spec(r, false, false),
{
}

/// The step that ends a round starts the hold: the next report comes
/// `DONE_HOLD` steps after the end, counting the ending step.
pub proof fn lemma_end_starts_hold(r: Round, player_hit: bool, enemies_empty: bool)
    requires
        r.state == State::Playing,
        player_hit || enemies_empty,
    ensures
        ended(finish_spec(r, player_hit, enemies_empty).0.state),
        finish_spec(r, player_hit, enemies_empty).0.done_timer == DONE_HOLD - 1,
        finish_spec(r, player_hit, enemies_empty).1.done is None,
        finish_spec(r, player_hit, enemies_empty).0.state == State::Win <==> !player_hit,
{
}

/// An ended round with `t` ticks of hold left reports its result exactly once
/// within any `n >= t` further steps, and never again after that; with no
/// hold left it never reports.
pub proof fn lemma_reported_once(r: Round, n: nat)
    requires
        ended(r.state),
    ensures
        reports(r, n) == if 1 <= r.done_timer <= n {
            1nat
        } else {
            0nat
        },
    decreases n,
{
    if n > 0 {
        let (next, t) = finish_spec(r, false, false);
        lemma_end_is_final(r, false, false);
        lemma_reported_once(next, (n - 1) as nat);
    }
}

/// The win animation counts the steps since the round was won: the step
/// that wins shows its first tick, a won round with `t` ticks of hold left
/// shows tick `DONE_HOLD - t`, and the next step shows one tick more.
pub proof fn lemma_win_anim_counts_up(r: Round, player_hit: bool, enemies_empty: bool)
    ensures
        r.state == State::Playing && !player_hit && enemies_empty ==> finish_spec(
            r,
            player_hit,
            enemies_empty,
        ).1.win_anim == Some(0u32),
        r.state == State::Win && r.done_timer <= DONE_HOLD ==> finish_spec(
            r,
            player_hit,
            enemies_empty,
        ).1.win_anim == Some((DONE_HOLD - r.done_timer) as u32),
        r.state == State::Win && 0 < r.done_timer <= DONE_HOLD ==> ({
            let next = finish_spec(r, player_hit, enemies_empty).0;
            &&& next.state == State::Win
            &&& finish_spec(next, false, false).1.win_anim == Some(
                (DONE_HOLD - r.done_timer + 1) as u32,
            )
        }),
        r.state != State::Win && !(r.state == State::Playing && !player_hit && enemies_empty)
            ==> finish_spec(r, player_hit, enemies_empty).1.win_anim is None,
{
}

/// A round's phase and the countdown of its held end screen.
#[derive(Clone, Copy, PartialEq, Eq, Structural, Debug)]
pub struct Round {
    pub state: State,
    pub done_timer: u32,
}

impl Round {
    /// A round waiting for the host.
    pub fn new() -> (r: Self)
        ensures
            r.state == State::Waiting,
            r.done_timer == 0,
    {
        Round { state: State::Waiting, done_timer: 0 }
    }

    /// Starts a waiting round when the host is ready; returns whether it started.
    pub fn start(&mut self, host_ready: bool) -> (started: bool)
        ensures
            started == (old(self).state == State::Waiting && host_ready),
            final(self).state == if started {
                State::Playing
            } else {
                old(self).state
            },
            final(self).done_timer == old(self).done_timer,
    {
        if self.state == State::Waiting && host_ready {
            self.state = State::Playing;
            true
        } else {
            false
        }
    }

    /// The end of a tick: a playing round is lost when the player was hit,
    /// and won when no enemy is left; an ended round holds its screen for
    /// `DONE_HOLD` ticks (animating a win), then reports its result once.
    pub fn finish_step(&mut self, player_hit: bool, enemies_empty: bool) -> (t: RoundTick)
        ensures
            (*final(self), t) == finish_spec(*old(self), player_hit, enemies_empty),
    {
        if self.state == State::Playing && player_hit {
            self.state = State::GameOver;
            self.done_timer = DONE_HOLD;
        }
        if self.state == State::Playing && enemies_empty {
            self.state = State::Win;
            self.done_timer = DONE_HOLD;
        }
        let win_anim = if self.state == State::Win {
            Some(DONE_HOLD.saturating_sub(self.done_timer))
        } else {
            None
        };
        let mut done = None;
        if self.done_timer > 0 {
            self.done_timer = self.done_timer - 1;
            if self.done_timer == 0 {
                done = Some(self.state == State::Win);
            }
        }
        RoundTick { win_anim, done }
    }
}

/// An enemy's hit points and the countdown of its hit flash.
#[derive(Clone, Copy, PartialEq, Eq, Structural, Debug)]
pub struct Health {
    pub hp: u32,
    pub flash: u32,
}

impl Health {
    pub fn new(hp: u32) -> (h: Self)
        ensures
            h.hp == hp,
            h.flash == 0,
    {
        Health { hp, flash: 0 }
    }

    /// Takes one hit (hit points never drop below zero) and starts the
    /// flash; returns whether the enemy is destroyed.
    pub fn damage(&mut self) -> (destroyed: bool)
        ensures
            final(self).hp == if old(self).hp > 0 {
                (old(self).hp - 1) as u32
            } else {
                0
            },
            final(self).flash == HIT_FLASH,
            destroyed == (final(self).hp == 0),
    {
        self.hp = self.hp.saturating_sub(1);
        self.flash = HIT_FLASH;
        self.hp == 0
    }

    /// One tick of the flash countdown.
    pub fn tick(&mut self)
        ensures
            final(self).hp == old(self).hp,
            final(self).flash == if old(self).flash > 0 {
                (old(self).flash - 1) as u32
            } else {
                0
            },
    {
        self.flash = self.flash.saturating_sub(1);
    }

    /// The tint an enemy is drawn with: light red on every other pair of
    /// ticks while it flashes, otherwise none (0).
    pub fn tint(&self, tick: u32) -> (c: u8)
        ensures
            c == if self.flash > 0 && (tick / 2) % 2 == 0 {
                LIGHT_RED
            } else {
                0
            },
    {
        if self.flash > 0 && (tick / 2) % 2 == 0 {
            LIGHT_RED
        } else {
            0
        }
    }
}

/// The player's firing cooldown, in ticks.
#[derive(Clone, Copy, PartialEq, Eq, Structural, Debug, Default)]
pub struct Cooldown {
    pub ticks: u32,
}

impl Cooldown {
    /// Fires when the cooldown has run out, restarting it; returns whether a shot was fired.
    pub fn try_fire(&mut self) -> (fired: bool)
        ensures
            fired == (old(self).ticks == 0),
            final(self).ticks == if fired {
                FIRE_COOLDOWN
            } else {
                old(self).ticks
            },
    {
        if self.ticks == 0 {
            self.ticks = FIRE_COOLDOWN;
            true
        } else {
            false
        }
    }

    /// One tick of the countdown.
    pub fn tick(&mut self)
        ensures
            final(self).ticks == if old(self).ticks > 0 {
                (old(self).ticks - 1) as u32
            } else {
                0
            },
    {
        self.ticks = self.ticks.saturating_sub(1);
    }
}

/// One tick of a periodic timer that fires every `period` ticks: the count
/// goes up by one, and when it reaches the period it fires and restarts at 0.
pub fn tick_timer(timer: u32, period: u32) -> (r: (u32, bool))
    requires
        timer < u32::MAX,
    ensures
        r.1 == (timer + 1 >= period),
        r.0 == if r.1 {
            0
        } else {
            timer + 1
        },
{
    let t = timer + 1;
    if t >= period {
        (0, true)
    } else {
        (t, false)
    }
}

/// The colour of the player's exhaust flame, alternating every four ticks.
pub fn exhaust_color(tick: u32) -> (c: u8)
    ensures
        c == if (tick / 4) % 2 == 0 {
            ORANGE
        } else {
            YELLOW
        },
{
    if (tick / 4) % 2 == 0 {
        ORANGE
    } else {
        YELLOW
    }
}

/// The colour of the `i`th dot of a diving enemy's tail.
pub fn tail_color(tick: u32, i: u32) -> (c: u8)
    requires
        i < 3,
    ensures
        c == if ((tick / 4) as int + i) % 2 == 0 {
            PURPLE
        } else {
            PINK
        },
{
    let colors: [u8; 2] = [PURPLE, PINK];
    colors[((tick / 4) as usize + i as usize) % 2]
}

/// The colours the "YOU WIN" banner cycles through.
pub const WIN_CYCLE: [u8; 4] = [LIME, WHITE, CYAN, YELLOW];

/// The colours the "GAME OVER" banner cycles through.
pub const OVER_CYCLE: [u8; 2] = [RED, LIGHT_RED];

/// The banner shown over an ended round, with its colour of the moment:
/// the colour changes every eight ticks.
pub fn banner(state: State, tick: u32) -> (b: Option<(&'static str, u8)>)
    ensures
        state == State::Win ==> b.is_some() && b.unwrap().0@ == "YOU WIN"@ && b.unwrap().1
            == WIN_CYCLE@[((tick / 8) % 4) as int],
        state == State::GameOver ==> b.is_some() && b.unwrap().0@ == "GAME OVER"@
            && b.unwrap().1 == OVER_CYCLE@[((tick / 8) % 2) as int],
        state == State::Waiting || state == State::Playing ==> b.is_none(),
{
    let cycle: usize = (tick / 8) as usize;
    match state {
        State::Win => Some(("YOU WIN", WIN_CYCLE[cycle % 4])),
        State::GameOver => Some(("GAME OVER", OVER_CYCLE[cycle % 2])),
        _ => None,
    }
}

/// Rust's division by two, rounding toward zero.
pub open spec fn half_toward_zero(d: int) -> int {
    if d >= 0 {
        d / 2
    } else {
        -((-d) / 2)
    }
}

/// Where a line of `len` characters, `char_width` pixels each, is drawn to
/// be centred horizontally on the frame, with its top at `y`.
pub fn centered_text_pos(len: usize, char_width: u32, y: i32) -> (p: IVec2)
    requires
        len * char_width <= i32::MAX,
    ensures
        p.x == half_toward_zero(GAME_W as int - len * char_width),
        p.y == y,
{
    assert(len as int * char_width as int <= i32::MAX);
    assert(len as int <= i32::MAX || char_width == 0) by (nonlinear_arith)
        requires
            len as int * char_width as int <= i32::MAX,
            len >= 0,
            char_width >= 0,
    ;
    let w: i64 = if char_width == 0 {
        0
    } else {
        len as i64 * char_width as i64
    };
    let d: i64 = GAME_W as i64 - w;
    let x: i64 = if d >= 0 {
        d / 2
    } else {
        -((-d) / 2)
    };
    IVec2 { x: x as i32, y }
}

} // verus!
