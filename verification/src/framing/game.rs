//! Modes, lives and timings of the framing game.
use rand::seq::SliceRandom;
use vstd::prelude::*;

verus! {

/// Lives the player starts with.
pub const NUM_LIVES: usize = 4;

/// Frames the animation of a lost life lasts.
pub const LIFE_LOSS_FRAMES: u64 = 120;

/// Tick of the intro at which the explosion sounds and the music starts.
pub const INTRO_MUSIC_TICK: u64 = 215;

/// Tick of the intro after which play moves on to the first microgame.
pub const INTRO_END_TICK: u64 = 285;

/// Sounds played after a won microgame.
pub const SOUND_POSITIVE: [&'static str; 4] = ["booyah", "excellent", "epicwin", "wow"];

/// Sounds played after a lost microgame.
pub const SOUND_NEGATIVE: [&'static str; 5] = ["boo", "aww", "itsover", "youlose", "yousuck"];

/// The screen the framing game shows.
#[derive(Debug, Clone, Copy, PartialEq, Eq, Structural)]
pub enum Mode {
    Titlescreen,
    Intro,
    BetweenGames,
    InGame,
    PostGames,
}

/// The framing game's textures.
#[derive(Debug, Clone, Copy, PartialEq, Eq, Structural)]
pub enum Texture {
    Arm,
    Intro,
    Mrblue,
    Mrgreen,
    Mrworld,
    Timbs,
    Titlescreen,
}

/// The two looks of the mascot: green for a life still held, blue for one
/// being lost.
#[derive(Debug, Clone, Copy, PartialEq, Eq, Structural)]
pub enum MrColor {
    Green,
    Blue,
}

impl MrColor {
    /// The mascot's body texture.
    pub fn texture(&self) -> (t: Texture)
        ensures
            t == match *self {
                MrColor::Green => Texture::Mrgreen,
                MrColor::Blue => Texture::Mrblue,
            },
    {
        match self {
            MrColor::Green => Texture::Mrgreen,
            MrColor::Blue => Texture::Mrblue,
        }
    }
}

/// How many lives are held among the first `n` slots: one more than the
/// index of the last slot whose loss has not started, or 0.
pub open spec fn held(active: Seq<bool>, n: int) -> int
    decreases n,
{
    if n <= 0 {
        0
    } else if !active[n - 1] {
        n
    } else {
        held(active, n - 1)
    }
}

proof fn lemma_held_facts(active: Seq<bool>, n: int)
    requires
        0 <= n <= active.len(),
    ensures
        0 <= held(active, n) <= n,
        held(active, n) > 0 ==> !active[held(active, n) - 1],
        forall|j: int| held(active, n) <= j < n ==> active[j],
    decreases n,
{
    if n > 0 {
        lemma_held_facts(active, n - 1);
    }
}

/// Whether the slots being lost all come after the slots still held.
pub open spec fn lost_from_the_end(s: Seq<bool>) -> bool {
    forall|j: int, k: int|
        #![trigger s[j], s[k]]
        0 <= j < k < s.len() && s[j] ==> s[k]
}

/// The player's lives: for each slot, whether its loss has started, and the
/// tick at which it started. A life is lost from the last slot still held,
/// so the slots being lost always come after those still held.
pub struct Lives {
    losing: [bool; NUM_LIVES],
    since: [u64; NUM_LIVES],
}

impl View for Lives {
    type V = Seq<bool>;

    closed spec fn view(&self) -> Seq<bool> {
        self.losing@
    }
}

impl Lives {
    #[verifier::type_invariant]
    spec fn lost_in_order(&self) -> bool {
        lost_from_the_end(self.losing@)
    }

    /// The tick at which the loss of slot `i` started (meaningful for a slot
    /// being lost).
    pub closed spec fn loss_tick(&self, i: int) -> u64 {
        self.since@[i]
    }

    /// All lives held.
    pub fn new() -> (l: Lives)
        ensures
            l@.len() == NUM_LIVES,
            forall|j: int| 0 <= j < NUM_LIVES ==> !l@[j],
    {
        Lives { losing: [false; NUM_LIVES], since: [0; NUM_LIVES] }
    }

    /// Whether the loss of slot `i` has started.
    pub fn is_losing(&self, i: usize) -> (r: bool)
        requires
            i < NUM_LIVES,
        ensures
            r == self@[i as int],
    {
        self.losing[i]
    }

    /// The tick at which the loss of slot `i` started, if it has.
    pub fn loss_started(&self, i: usize) -> (r: Option<u64>)
        requires
            i < NUM_LIVES,
        ensures
            self@[i as int] ==> r == Some(self.loss_tick(i as int)),
            !self@[i as int] ==> r is None,
    {
        if self.losing[i] {
            Some(self.since[i])
        } else {
            None
        }
    }

    /// The last life still held: the last slot whose loss has not started.
    pub fn last_life(&self) -> (r: Option<usize>)
        ensures
            self@.len() == NUM_LIVES,
            lost_from_the_end(self@),
            held(self@, NUM_LIVES as int) > 0 ==> r == Some(
                (held(self@, NUM_LIVES as int) - 1) as usize,
            ),
            held(self@, NUM_LIVES as int) == 0 ==> r is None,
            r matches Some(i) ==> {
                &&& i < NUM_LIVES
                &&& !self@[i as int]
                &&& forall|j: int| i < j < NUM_LIVES ==> self@[j]
            },
            r is None ==> forall|j: int| 0 <= j < NUM_LIVES ==> self@[j],
    {
        proof {
            use_type_invariant(self);
        }
        let mut i: usize = NUM_LIVES;
        while i > 0
            invariant
                i <= NUM_LIVES,
                self@.len() == NUM_LIVES,
                lost_from_the_end(self@),
                forall|j: int| i <= j < NUM_LIVES ==> self@[j],
                held(self@, NUM_LIVES as int) == held(self@, i as int),
            decreases i,
        {
            if !self.losing[i - 1] {
                return Some(i - 1);
            }
            i = i - 1;
        }
        None
    }

    /// How many lives the player holds: the slots before the first one being
    /// lost.
    pub fn lives_remaining(&self) -> (n: i32)
        ensures
            n == held(self@, NUM_LIVES as int),
            0 <= n <= NUM_LIVES,
            forall|j: int| 0 <= j < n ==> !self@[j],
            forall|j: int| n <= j < NUM_LIVES ==> self@[j],
    {
        proof {
            use_type_invariant(self);
            lemma_held_facts(self@, NUM_LIVES as int);
        }
        match self.last_life() {
            Some(x) => (x + 1) as i32,
            None => 0,
        }
    }

    /// Starts losing the last life still held, at tick `tick`; with no life
    /// held, nothing changes.
    pub fn lose_life(&mut self, tick: u64)
        ensures
            held(old(self)@, NUM_LIVES as int) > 0 ==> {
                let h = held(old(self)@, NUM_LIVES as int);
                &&& final(self)@ == old(self)@.update(h - 1, true)
                &&& final(self).loss_tick(h - 1) == tick
                &&& forall|j: int|
                    0 <= j < NUM_LIVES && j != h - 1 ==> final(self).loss_tick(j) == old(
                        self,
                    ).loss_tick(j)
                &&& held(final(self)@, NUM_LIVES as int) == h - 1
            },
            held(old(self)@, NUM_LIVES as int) == 0 ==> {
                &&& final(self)@ == old(self)@
                &&& forall|j: int|
                    0 <= j < NUM_LIVES ==> final(self).loss_tick(j) == old(self).loss_tick(j)
                &&& held(final(self)@, NUM_LIVES as int) == 0
            },
    {
        proof {
            use_type_invariant(&*self);
            lemma_held_facts(self@, NUM_LIVES as int);
        }
        match self.last_life() {
            Some(ll) => {
                let mut losing = self.losing;
                let mut since = self.since;
                losing[ll] = true;
                since[ll] = tick;
                proof {
                    lemma_losing_a_life(self.losing@);
                    assert forall|j: int, k: int|
                        0 <= j < k < NUM_LIVES && losing@[j] implies losing@[k] by {
                        if j != ll && k != ll {
                            assert(self.losing@[j]);
                        }
                    }
                }
                *self = Lives { losing, since };
            },
            None => {},
        }
    }
}

/// Starting to lose the last held life leaves fewer lives held; when lives
/// are lost from the end (the slots being lost form a suffix), exactly one
/// fewer.
pub proof fn lemma_losing_a_life(active: Seq<bool>)
    requires
        active.len() == NUM_LIVES,
        held(active, NUM_LIVES as int) > 0,
    ensures
        held(active.update(held(active, NUM_LIVES as int) - 1, true), NUM_LIVES as int) < held(
            active,
            NUM_LIVES as int,
        ),
        (forall|j: int, k: int| 0 <= j < k < NUM_LIVES && active[j] ==> active[k]) ==> held(
            active.update(held(active, NUM_LIVES as int) - 1, true),
            NUM_LIVES as int,
        ) == held(active, NUM_LIVES as int) - 1,
{
    let h = held(active, NUM_LIVES as int);
    let a2 = active.update(h - 1, true);
    lemma_held_facts(active, NUM_LIVES as int);
    lemma_held_facts(a2, NUM_LIVES as int);
    lemma_held_suffix(active, a2, NUM_LIVES as int, h);
    if forall|j: int, k: int| 0 <= j < k < NUM_LIVES && active[j] ==> active[k] {
        if h >= 2 {
            assert(!active[h - 2]);
            assert(!a2[h - 2]);
        }
    }
}

proof fn lemma_held_suffix(a: Seq<bool>, b: Seq<bool>, n: int, h: int)
    requires
        0 < h <= n <= a.len(),
        a.len() == b.len(),
        h == held(a, n),
        b == a.update(h - 1, true),
    ensures
        held(b, n) == held(a, h - 1),
    decreases n,
{
    lemma_held_facts(a, n);
    if n > h {
        lemma_held_suffix(a, b, n - 1, h);
        assert(a[n - 1]);
    } else {
        assert(b[h - 1]);
        lemma_held_prefix_eq(a, b, h - 1);
    }
}

proof fn lemma_held_prefix_eq(a: Seq<bool>, b: Seq<bool>, m: int)
    requires
        0 <= m,
        m < a.len(),
        a.len() == b.len(),
        forall|j: int| 0 <= j < m ==> a[j] == b[j],
    ensures
        held(a, m) == held(b, m),
    decreases m,
{
    if m > 0 {
        lemma_held_prefix_eq(a, b, m - 1);
    }
}

/// What the intro asks for at tick `t` of its mode.
#[derive(Debug, Clone, Copy, PartialEq, Eq, Structural)]
pub struct IntroCue {
    /// Play the explosion and start the music.
    pub start_music: bool,
    /// Move on to the screen between games.
    pub finish: bool,
}

/// The intro's cues: the music starts at `INTRO_MUSIC_TICK`, and the intro
/// ends from `INTRO_END_TICK` on.
pub fn intro_cue(t: u64) -> (c: IntroCue)
    ensures
        c.start_music == (t == INTRO_MUSIC_TICK),
        c.finish == (t >= INTRO_END_TICK),
{
    IntroCue { start_music: t == 43 * 5, finish: t >= 57 * 5 }
}

/// The frame of the two-frame title screen at tick `t`: it alternates every
/// 60 ticks.
pub fn titlescreen_frame(t: u64) -> (f: i32)
    ensures
        f == (t / 60) % 2,
{
    ((t / 60) % 2) as i32
}

/// The cell of the 8x8 intro sheet shown at tick `t`: one cell every five
/// ticks, row by row.
pub fn intro_cell(t: u64) -> (c: (i32, i32))
    ensures
        c.0 == (t / 5) % 8,
        c.1 == ((t / 5) / 8) as i32,
{
    let f = t / 5;
    ((f % 8) as i32, (f / 8) as i32)
}

/// The frame of the world sheet while a microgame fades in, `t` ticks after
/// it started: the opening animation steps from frame 2 every five ticks,
/// stopping at frame 7, for 35 ticks, frame 7 holds while the world fades, and afterwards the frame is
/// left as it was (none).
pub fn fadeout_frame(t: u64) -> (f: Option<i32>)
    ensures
        t < 35 ==> f == Some((2 + if t / 5 > 5 { 5 } else { t / 5 }) as i32),
        35 <= t < 70 ==> f == Some(7i32),
        t >= 70 ==> f is None,
{
    if t < 35 {
        let step: u64 = t / 5;
        let clamped: u64 = if step > 5 {
            5
        } else {
            step
        };
        Some(2 + clamped as i32)
    } else if t < 70 {
        Some(7)
    } else {
        None
    }
}

/// Whether the microgame's verb shows over the world, `fadeout` ticks into
/// the microgame (none between games): after the first five ticks, until
/// the world has faded.
pub fn verb_visible(has_verb: bool, fadeout: Option<u64>) -> (r: bool)
    ensures
        r == (has_verb && fadeout is Some && 5 < fadeout.unwrap() < 70),
{
    match fadeout {
        Some(t) => has_verb && t > 5 && t < 70,
        None => false,
    }
}

/// A character turned to ASCII upper case: `a` to `z` become `A` to `Z`,
/// every other character is kept.
pub open spec fn ascii_upper(c: char) -> char {
    if 'a' <= c && c <= 'z' {
        ((c as u32) - 32) as char
    } else {
        c
    }
}

/// `str::to_ascii_uppercase`: a copy of `s` with each character mapped by
/// `ascii_upper`, as `std` documents it.
#[verifier::external_body]
fn to_ascii_uppercase(s: &str) -> (r: String)
    ensures
        r@ == s@.map_values(|c: char| ascii_upper(c)),
{
    s.to_ascii_uppercase()
}

/// The verb announced for a microgame, shouted: in ASCII upper case.
pub fn shout_verb(verb: &Option<String>) -> (r: Option<String>)
    ensures
        match *verb {
            Some(v) => r is Some && r.unwrap()@ == v@.map_values(|c: char| ascii_upper(c)),
            None => r is None,
        },
{
    match verb {
        Some(v) => Some(to_ascii_uppercase(v.as_str())),
        None => None,
    }
}

/// `SliceRandom::choose` of `rand` with the thread's generator: `None` for
/// an empty slice, otherwise one of its items, picked at random. Which item
/// comes back is left open.
#[verifier::external_body]
fn choose_sound(sounds: &[&'static str]) -> (r: Option<&'static str>)
    ensures
        r is None <==> sounds@.len() == 0,
        r matches Some(s) ==> sounds@.contains(s),
{
    sounds.choose(&mut rand::thread_rng()).copied()
}

/// A cheer after a won microgame or a jeer after a lost one, picked at
/// random.
pub fn random_sound(win: bool) -> (s: &'static str)
    ensures
        win ==> SOUND_POSITIVE@.contains(s),
        !win ==> SOUND_NEGATIVE@.contains(s),
{
    let sounds: &[&'static str] = if win {
        &SOUND_POSITIVE
    } else {
        &SOUND_NEGATIVE
    };
    choose_sound(sounds).unwrap()
}

/// The framing game between frames: the screen shown and the tick it was
/// switched to, the lives, and the verb of the microgame being played.
pub struct Game {
    pub mode: Mode,
    pub mode_started: u64,
    pub lives: Lives,
    pub verb: Option<String>,
}

impl Game {
    /// The title screen, with every life held and no verb.
    pub fn new() -> (g: Game)
        ensures
            g.mode == Mode::Titlescreen,
            g.mode_started == 0,
            g.lives@.len() == NUM_LIVES,
            forall|j: int| 0 <= j < NUM_LIVES ==> !g.lives@[j],
            g.verb is None,
    {
        Game { mode: Mode::Titlescreen, mode_started: 0, lives: Lives::new(), verb: None }
    }

    /// Shows screen `m` from tick `tick` on.
    pub fn switch(&mut self, tick: u64, m: Mode)
        ensures
            final(self).mode == m,
            final(self).mode_started == tick,
            final(self).lives == old(self).lives,
            final(self).verb == old(self).verb,
    {
        self.mode = m;
        self.mode_started = tick;
    }

    /// One tick of the framing game at tick `tick`: during the intro, the
    /// music starts at `INTRO_MUSIC_TICK` ticks in, and from `INTRO_END_TICK`
    /// ticks in play moves on to the screen between games. Other screens
    /// wait for the page.
    pub fn update(&mut self, tick: u64) -> (c: IntroCue)
        requires
            old(self).mode_started <= tick,
        ensures
            c.start_music == (old(self).mode == Mode::Intro && tick - old(self).mode_started
                == INTRO_MUSIC_TICK),
            c.finish == (old(self).mode == Mode::Intro && tick - old(self).mode_started
                >= INTRO_END_TICK),
            c.finish ==> final(self).mode == Mode::BetweenGames && final(self).mode_started
                == tick,
            !c.finish ==> final(self).mode == old(self).mode && final(self).mode_started == old(
                self,
            ).mode_started,
            final(self).lives == old(self).lives,
            final(self).verb == old(self).verb,
    {
        let t = tick - self.mode_started;
        match self.mode {
            Mode::Intro => {
                let c = intro_cue(t);
                if c.finish {
                    self.switch(tick, Mode::BetweenGames);
                }
                c
            },
            _ => IntroCue { start_music: false, finish: false },
        }
    }
}

/// A click on the title screen starts the intro at tick `tick`.
pub fn titlescreen_click(g: &mut Game, tick: u64)
    ensures
        final(g).mode == Mode::Intro,
        final(g).mode_started == tick,
        final(g).lives == old(g).lives,
        final(g).verb == old(g).verb,
{
    g.switch(tick, Mode::Intro);
}

/// A microgame starts at tick `tick`; its verb, shouted, shows while it
/// fades in.
pub fn start_game(g: &mut Game, tick: u64, verb: Option<String>)
    ensures
        final(g).mode == Mode::InGame,
        final(g).mode_started == tick,
        final(g).lives == old(g).lives,
        match verb {
            Some(v) => final(g).verb is Some && final(g).verb.unwrap()@ == v@.map_values(
                |c: char| ascii_upper(c),
            ),
            None => final(g).verb is None,
        },
{
    g.switch(tick, Mode::InGame);
    g.verb = shout_verb(&verb);
}

/// What the end of a microgame calls for.
#[derive(Debug, Clone, Copy, PartialEq, Eq)]
pub struct Verdict {
    /// The cheer or jeer to play.
    pub sound: &'static str,
    /// Whether footsteps play as a life walks away.
    pub footsteps: bool,
    /// The lives held afterwards, for the page's counter.
    pub lives: i32,
}

/// A microgame ends at tick `tick`: back to the screen between games; a win
/// is cheered, a loss costs the last life held and is jeered.
pub fn end_game(g: &mut Game, tick: u64, win: bool) -> (v: Verdict)
    ensures
        final(g).mode == Mode::BetweenGames,
        final(g).mode_started == tick,
        final(g).verb == old(g).verb,
        win ==> final(g).lives == old(g).lives,
        !win && held(old(g).lives@, NUM_LIVES as int) > 0 ==> final(g).lives@ == old(
            g,
        ).lives@.update(held(old(g).lives@, NUM_LIVES as int) - 1, true) && held(
            final(g).lives@,
            NUM_LIVES as int,
        ) == held(old(g).lives@, NUM_LIVES as int) - 1,
        !win && held(old(g).lives@, NUM_LIVES as int) == 0 ==> final(g).lives@ == old(g).lives@
            && held(final(g).lives@, NUM_LIVES as int) == 0,
        v.lives == held(final(g).lives@, NUM_LIVES as int),
        v.footsteps == !win,
        win ==> SOUND_POSITIVE@.contains(v.sound),
        !win ==> SOUND_NEGATIVE@.contains(v.sound),
{
    g.switch(tick, Mode::BetweenGames);
    if !win {
        g.lives.lose_life(tick);
    }
    let sound = random_sound(win);
    Verdict { sound, footsteps: !win, lives: g.lives.lives_remaining() }
}

} // verus!
