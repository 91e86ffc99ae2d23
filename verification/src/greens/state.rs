//! The round: its phase, the player's score, what clicks and collisions do,
//! and how a round is judged.
use vstd::prelude::*;

use crate::greens::color::EntityColor;
use crate::greens::computer::ComputerPhase;
use crate::greens::errors::ClickOutcome;

verus! {

/// The phase of the game.
#[derive(Debug, Copy, Clone, PartialEq, Eq, Structural)]
pub enum GamePhase {
    Waiting,
    Playing,
    /// The computer has taken over the screen.
    Computer(ComputerPhase),
    Finished,
}

/// The name of a game phase.
pub open spec fn phase_name(p: GamePhase) -> Seq<char> {
    match p {
        GamePhase::Waiting => "waiting"@,
        GamePhase::Playing => "playing"@,
        GamePhase::Computer(_) => "computer"@,
        GamePhase::Finished => "finished"@,
    }
}

impl GamePhase {
    /// The phase's name.
    pub fn phase(&self) -> (s: &'static str)
        ensures
            s@ == phase_name(*self),
    {
        match self {
            GamePhase::Waiting => "waiting",
            GamePhase::Playing => "playing",
            GamePhase::Computer(_) => "computer",
            GamePhase::Finished => "finished",
        }
    }
}

/// How a round went.
#[derive(Debug, Copy, Clone, PartialEq, Eq, Structural)]
pub enum RoundResult {
    /// The player reached the score the round asked for.
    Okay,
    /// The player did not.
    Ko,
}

impl From<RoundResult> for &'static str {
    /// "Ok" or "Ko".
    fn from(value: RoundResult) -> (s: &'static str)
        ensures
            s == match value {
                RoundResult::Okay => "Ok",
                RoundResult::Ko => "Ko",
            },
    {
        match value {
            RoundResult::Okay => "Ok",
            RoundResult::Ko => "Ko",
        }
    }
}

impl vstd::std_specs::convert::FromSpecImpl<RoundResult> for &'static str {
    open spec fn obeys_from_spec() -> bool {
        true
    }

    open spec fn from_spec(v: RoundResult) -> &'static str {
        match v {
            RoundResult::Okay => "Ok",
            RoundResult::Ko => "Ko",
        }
    }
}

impl From<RoundResult> for bool {
    /// Whether the round was won.
    fn from(value: RoundResult) -> (b: bool)
        ensures
            b == (value == RoundResult::Okay),
    {
        match value {
            RoundResult::Okay => true,
            RoundResult::Ko => false,
        }
    }
}

impl vstd::std_specs::convert::FromSpecImpl<RoundResult> for bool {
    open spec fn obeys_from_spec() -> bool {
        true
    }

    open spec fn from_spec(v: RoundResult) -> bool {
        v == RoundResult::Okay
    }
}

/// The score a round asks for, from the goal scaled to the difficulty and
/// rounded: never less than 5.
pub fn required_greens(scaled_goal: i32) -> (r: i32)
    ensures
        r == if scaled_goal > 5 {
            scaled_goal
        } else {
            5
        },
{
    if scaled_goal > 5 {
        scaled_goal
    } else {
        5
    }
}

/// A clicked head as the click sees it: its colour and, while it is a rogue
/// green still in disguise, the colour it really counts as.
#[derive(Debug, Copy, Clone, PartialEq, Eq, Structural)]
pub struct ClickedEntity {
    pub color: EntityColor,
    pub rogue_hover: Option<EntityColor>,
}

/// The colour a click on a head counts as: a disguised rogue green counts as
/// its hidden colour, every other head as its own.
pub open spec fn effective_color(e: ClickedEntity) -> EntityColor {
    if e.color == EntityColor::Green && e.rogue_hover is Some {
        e.rogue_hover.unwrap()
    } else {
        e.color
    }
}

/// A rogue green still in disguise counts as its disguise, whatever colour
/// that is: a click on it is a hit of that colour, worth +1 only when the
/// disguise is green and -1 otherwise. A head without disguise, or of
/// another colour, counts as its own colour.
pub proof fn lemma_rogue_counts_as_disguise(c: EntityColor, own: EntityColor, hover: Option<EntityColor>)
    ensures
        effective_color(ClickedEntity { color: EntityColor::Green, rogue_hover: Some(c) }) == c,
        score_delta(effective_color(ClickedEntity { color: EntityColor::Green, rogue_hover: Some(c) }))
            == (if c == EntityColor::Green {
            1i32
        } else {
            -1i32
        }),
        own != EntityColor::Green ==> effective_color(ClickedEntity { color: own, rogue_hover: hover })
            == own,
        effective_color(ClickedEntity { color: own, rogue_hover: None }) == own,
{
}

/// The score change for eating a head of a colour: +1 for green, -1 otherwise.
pub open spec fn score_delta(c: EntityColor) -> i32 {
    if c == EntityColor::Green {
        1i32
    } else {
        -1i32
    }
}

/// `score + delta`, held within the range of `i32`.
pub open spec fn saturating_add(score: i32, delta: i32) -> i32 {
    let s = score as int + delta as int;
    if s > i32::MAX {
        i32::MAX
    } else if s < i32::MIN {
        i32::MIN
    } else {
        s as i32
    }
}

/// The part of a round that is not positions and time: its phase and the
/// player's score.
#[derive(Debug, Copy, Clone, PartialEq, Eq, Structural)]
pub struct RoundStatus {
    phase: GamePhase,
    consumer_score: i32,
}

impl RoundStatus {
    pub closed spec fn phase_spec(&self) -> GamePhase {
        self.phase
    }

    pub closed spec fn score_spec(&self) -> i32 {
        self.consumer_score
    }

    /// A game waiting for its first round, with no score.
    pub fn new() -> (r: Self)
        ensures
            r.phase_spec() == GamePhase::Waiting,
            r.score_spec() == 0,
    {
        RoundStatus { phase: GamePhase::Waiting, consumer_score: 0 }
    }

    /// Starts a round: score 0, playing.
    pub fn start_round(&mut self)
        ensures
            final(self).phase_spec() == GamePhase::Playing,
            final(self).score_spec() == 0,
    {
        self.consumer_score = 0;
        self.phase = GamePhase::Playing;
    }

    pub fn set_phase(&mut self, phase: GamePhase)
        ensures
            final(self).phase_spec() == phase,
            final(self).score_spec() == old(self).score_spec(),
    {
        self.phase = phase;
    }

    pub fn phase(&self) -> (p: GamePhase)
        ensures
            p == self.phase_spec(),
    {
        self.phase
    }

    pub fn consumer_score(&self) -> (s: i32)
        ensures
            s == self.score_spec(),
    {
        self.consumer_score
    }

    /// Adds `delta` to the score, saturating, but only while playing.
    pub fn change_score(&mut self, delta: i32)
        ensures
            final(self).phase_spec() == old(self).phase_spec(),
            final(self).score_spec() == if old(self).phase_spec() == GamePhase::Playing {
                saturating_add(old(self).score_spec(), delta)
            } else {
                old(self).score_spec()
            },
    {
        if self.phase != GamePhase::Playing {
            return;
        }
        let sum: i64 = self.consumer_score as i64 + delta as i64;
        self.consumer_score = if sum > i32::MAX as i64 {
            i32::MAX
        } else if sum < i32::MIN as i64 {
            i32::MIN
        } else {
            sum as i32
        };
    }

    /// A round is won when the score reaches the required score.
    pub fn round_result(&self, required: i32) -> (r: RoundResult)
        ensures
            r == if self.score_spec() >= required {
                RoundResult::Okay
            } else {
                RoundResult::Ko
            },
    {
        if self.consumer_score >= required {
            RoundResult::Okay
        } else {
            RoundResult::Ko
        }
    }

    /// A click while playing: a hit head is eaten (scoring as its effective
    /// colour) and reported with that colour; no head is a miss. Outside
    /// play, clicks do nothing.
    pub fn click_at(&mut self, target: Option<ClickedEntity>) -> (r: Option<ClickOutcome>)
        ensures
            final(self).phase_spec() == old(self).phase_spec(),
            old(self).phase_spec() != GamePhase::Playing ==> r is None && final(self).score_spec()
                == old(self).score_spec(),
            old(self).phase_spec() == GamePhase::Playing ==> match target {
                Some(e) => {
                    &&& r == Some(ClickOutcome::Hit(effective_color(e)))
                    &&& final(self).score_spec() == saturating_add(
                        old(self).score_spec(),
                        score_delta(effective_color(e)),
                    )
                },
                None => {
                    &&& r == Some(ClickOutcome::Miss)
                    &&& final(self).score_spec() == old(self).score_spec()
                },
            },
    {
        if self.phase != GamePhase::Playing {
            return None;
        }
        match target {
            Some(e) => {
                let mut effective = e.color;
                if e.color == EntityColor::Green {
                    if let Some(hover) = e.rogue_hover {
                        effective = hover;
                    }
                }
                match effective {
                    EntityColor::Green => self.change_score(1),
                    EntityColor::Yellow | EntityColor::Red | EntityColor::Bleu => self.change_score(
                        -1,
                    ),
                }
                Some(ClickOutcome::Hit(effective))
            },
            None => Some(ClickOutcome::Miss),
        }
    }
}

/// What two touching heads do to each other.
#[derive(Debug, Copy, Clone, PartialEq, Eq, Structural)]
pub enum CollisionEffect {
    /// Two greens react: the first becomes `first`, the second `second`;
    /// the one that turns red starts its countdown.
    Mutate { first: EntityColor, second: EntityColor },
    /// Two reds blow each other up, and the blast kills every green.
    Annihilate,
    /// Anything else bounces off faster.
    Accelerate,
}

/// How two greens react: an even `coin` turns the first yellow and the
/// second red, an odd one the other way round.
pub open spec fn green_reaction(coin: u32) -> CollisionEffect {
    if coin % 2 == 0 {
        CollisionEffect::Mutate { first: EntityColor::Yellow, second: EntityColor::Red }
    } else {
        CollisionEffect::Mutate { first: EntityColor::Red, second: EntityColor::Yellow }
    }
}

/// The effect of a collision between heads of colours `a` and `b`; `coin`
/// is a random number whose low bit picks which green turns red.
pub fn collision_effect(a: EntityColor, b: EntityColor, coin: u32) -> (e: CollisionEffect)
    ensures
        a == EntityColor::Green && b == EntityColor::Green ==> e == green_reaction(coin),
        a == EntityColor::Red && b == EntityColor::Red ==> e == CollisionEffect::Annihilate,
        !(a == EntityColor::Green && b == EntityColor::Green) && !(a == EntityColor::Red && b
            == EntityColor::Red) ==> e == CollisionEffect::Accelerate,
{
    match (a, b) {
        (EntityColor::Green, EntityColor::Green) => {
            assert((coin & 1u32) == 0 <==> coin % 2 == 0) by (bit_vector);
            if (coin & 1) == 0 {
                CollisionEffect::Mutate { first: EntityColor::Yellow, second: EntityColor::Red }
            } else {
                CollisionEffect::Mutate { first: EntityColor::Red, second: EntityColor::Yellow }
            }
        },
        (EntityColor::Red, EntityColor::Red) => CollisionEffect::Annihilate,
        _ => CollisionEffect::Accelerate,
    }
}

/// Two greens that react always end as one yellow and one red.
pub proof fn lemma_greens_mutate_to_red_and_yellow(coin: u32, first: EntityColor, second: EntityColor)
    requires
        green_reaction(coin) == (CollisionEffect::Mutate { first, second }),
    ensures
        (first == EntityColor::Red && second == EntityColor::Yellow) || (first
            == EntityColor::Yellow && second == EntityColor::Red),
{
}

/// Whether head `i` is a green, by the heads' colours.
pub open spec fn is_green_at(colors: Seq<EntityColor>, i: int) -> bool {
    0 <= i < colors.len() && colors[i] == EntityColor::Green
}

/// A blast wipes the greens: every green head dies, every other head keeps
/// its state. Heads are given by their living flags and their colours, in
/// the same order.
pub fn wipe_greens(alive: &mut Vec<bool>, colors: &[EntityColor])
    ensures
        final(alive)@.len() == old(alive)@.len(),
        forall|i: int|
            0 <= i < old(alive)@.len() ==> #[trigger] final(alive)@[i] == (old(alive)@[i]
                && !is_green_at(colors@, i)),
{
    let n = alive.len();
    let mut i: usize = 0;
    while i < n
        invariant
            i <= n,
            n == old(alive)@.len(),
            alive@.len() == n,
            forall|j: int|
                0 <= j < i ==> #[trigger] alive@[j] == (old(alive)@[j] && !is_green_at(
                    colors@,
                    j,
                )),
            forall|j: int| i <= j < n ==> #[trigger] alive@[j] == old(alive)@[j],
        decreases n - i,
    {
        if i < colors.len() && colors[i] == EntityColor::Green {
            alive.set(i, false);
        }
        i = i + 1;
    }
}

/// Two reds, heads `i` and `j`, blow each other up: both die, and the blast
/// kills every green; every other head keeps its state.
pub fn annihilate(alive: &mut Vec<bool>, colors: &[EntityColor], i: usize, j: usize)
    requires
        i < old(alive)@.len(),
        j < old(alive)@.len(),
    ensures
        final(alive)@.len() == old(alive)@.len(),
        forall|k: int|
            0 <= k < old(alive)@.len() ==> #[trigger] final(alive)@[k] == (old(alive)@[k] && k
                != i && k != j && !is_green_at(colors@, k)),
{
    alive.set(i, false);
    alive.set(j, false);
    wipe_greens(alive, colors);
}

} // verus!
