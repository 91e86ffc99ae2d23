//! The register writes that drive the SID sound chip's three voices. Each
//! voice has seven registers, from `7 * voice`: frequency (low, high), pulse
//! width (low, high), control, attack/decay and sustain/release; register
//! 0x18 holds the volume.
use vstd::prelude::*;

verus! {

/// The voice control bit that keeps a voice sounding while set.
pub const GATE: u8 = 0x01;
pub const TRIANGLE: u8 = 0x10;
pub const SAWTOOTH: u8 = 0x20;
pub const PULSE: u8 = 0x40;
pub const NOISE: u8 = 0x80;

/// The volume register.
pub const VOLUME_REGISTER: u8 = 0x18;

/// A register write: the register, then the value.
pub type Write = (u8, u8);

/// Closes a voice's gate, keeping its waveform: the note releases.
pub fn gate_off(voice: u8, wave: u8) -> (w: Write)
    requires
        voice * 7 + 4 <= 255,
    ensures
        w == ((voice * 7 + 4) as u8, wave),
{
    (voice * 7 + 4, wave)
}

/// Retriggers a voice.
pub fn gate_on(voice: u8, wave: u8) -> (w: [Write; 2])
    requires
        voice * 7 + 4 <= 255,
    ensures
        w@ == seq![((voice * 7 + 4) as u8, wave), ((voice * 7 + 4) as u8, wave | GATE)],
{
    let control: u8 = voice * 7 + 4;
    [(control, wave), (control, wave | GATE)]
}

/// Sets a voice's envelope.
pub fn set_envelope(voice: u8, attack_decay: u8, sustain_release: u8) -> (w: [Write; 2])
    requires
        voice * 7 + 6 <= 255,
    ensures
        w@ == seq![((voice * 7 + 5) as u8, attack_decay), ((voice * 7 + 6) as u8, sustain_release)],
{
    let base: u8 = voice * 7;
    [(base + 5, attack_decay), (base + 6, sustain_release)]
}

/// The low and high bytes of a 16-bit register value.
pub open spec fn split16(v: u16) -> (u8, u8) {
    ((v % 256) as u8, (v / 256) as u8)
}

fn bytes16(v: u16) -> (r: (u8, u8))
    ensures
        r == split16(v),
{
    let lo: u16 = v & 0xff;
    let hi: u16 = v >> 8u16;
    assert(lo == v % 256 && hi == v / 256 && hi < 256) by (bit_vector)
        requires
            lo == v & 0xff,
            hi == v >> 8u16,
    ;
    (lo as u8, hi as u8)
}

/// Sets a voice's frequency register (in chip units), low byte first.
pub fn set_freq(voice: u8, freq: u16) -> (w: [Write; 2])
    requires
        voice * 7 + 1 <= 255,
    ensures
        w@ == seq![((voice * 7) as u8, split16(freq).0), ((voice * 7 + 1) as u8, split16(freq).1)],
{
    let base: u8 = voice * 7;
    let (lo, hi) = bytes16(freq);
    [(base, lo), (base + 1, hi)]
}

/// Sets a voice's pulse width, low byte first.
pub fn set_pulse_width(voice: u8, width: u16) -> (w: [Write; 2])
    requires
        voice * 7 + 3 <= 255,
    ensures
        w@ == seq![((voice * 7 + 2) as u8, split16(width).0), ((voice * 7 + 3) as u8, split16(width).1)],
{
    let base: u8 = voice * 7;
    let (lo, hi) = bytes16(width);
    [(base + 2, lo), (base + 3, hi)]
}

/// Sets the master volume.
pub fn set_volume(volume: u8) -> (w: Write)
    ensures
        w == (VOLUME_REGISTER, volume),
{
    (VOLUME_REGISTER, volume)
}

/// The sounds the shooter plays.
#[derive(Debug, Clone, Copy, PartialEq, Eq, Structural)]
pub enum Sound {
    EnemyShoot,
    Explosion,
    Hit,
    Lose,
    Shoot,
    Win,
}

/// Blocks of 64 samples the hit sound lasts.
pub const HIT_BLOCKS: u32 = 45;

/// Blocks the victory melody lasts.
pub const WIN_BLOCKS: u32 = 300;

/// Blocks the losing sound lasts.
pub const LOSE_BLOCKS: u32 = 300;

/// The victory countdown at which its second note sounds.
pub const WIN_SECOND_NOTE: u32 = 245;

/// The victory countdown at which its third note sounds.
pub const WIN_THIRD_NOTE: u32 = 190;

/// A countdown one block later: one less, stopping at zero.
pub open spec fn step(t: u32) -> u32 {
    if t > 0 {
        (t - 1) as u32
    } else {
        0
    }
}

/// A countdown `k` blocks later.
pub open spec fn steps(t: u32, k: nat) -> u32
    decreases k,
{
    if k == 0 {
        t
    } else {
        step(steps(t, (k - 1) as nat))
    }
}

/// The countdowns of the sounds that stop on their own, in blocks.
#[derive(Debug, Clone, Copy, PartialEq, Eq, Structural)]
pub struct Countdowns {
    pub hit: u32,
    pub win: u32,
    pub lose: u32,
}

/// What one block calls for on the chip.
#[derive(Debug, Clone, Copy, PartialEq, Eq, Structural)]
pub struct BlockCues {
    /// Release the hit's noise (voice 2).
    pub hit_release: bool,
    /// Sound the victory melody's next note: 2 for the second, 3 for the
    /// third.
    pub win_note: Option<u8>,
    /// Release the victory melody (voice 0).
    pub win_release: bool,
    /// Move the losing sound's wobbling pitch (voice 1).
    pub lose_step: bool,
    /// Release the losing sound (voice 1).
    pub lose_release: bool,
}

impl Countdowns {
    /// No sound running.
    pub fn new() -> (c: Countdowns)
        ensures
            c == (Countdowns { hit: 0, win: 0, lose: 0 }),
    {
        Countdowns { hit: 0, win: 0, lose: 0 }
    }

    /// Starts the countdown a sound runs on: a hit lasts `HIT_BLOCKS`, an
    /// explosion cuts a hit short, the victory melody and the losing sound
    /// last `WIN_BLOCKS` and `LOSE_BLOCKS`; other sounds have none.
    pub fn start(&mut self, sound: Sound)
        ensures
            final(self).hit == match sound {
                Sound::Hit => HIT_BLOCKS,
                Sound::Explosion => 0,
                _ => old(self).hit,
            },
            final(self).win == if sound == Sound::Win {
                WIN_BLOCKS
            } else {
                old(self).win
            },
            final(self).lose == if sound == Sound::Lose {
                LOSE_BLOCKS
            } else {
                old(self).lose
            },
    {
        match sound {
            Sound::Hit => self.hit = 45,
            Sound::Explosion => self.hit = 0,
            Sound::Win => self.win = 300,
            Sound::Lose => self.lose = 300,
            Sound::EnemyShoot | Sound::Shoot => {},
        }
    }

    /// One block: each running countdown goes down by one; a sound whose
    /// countdown reaches zero is released, and the victory melody moves to
    /// its next note at `WIN_SECOND_NOTE` and `WIN_THIRD_NOTE`.
    pub fn block(&mut self) -> (c: BlockCues)
        ensures
            final(self).hit == step(old(self).hit),
            final(self).win == step(old(self).win),
            final(self).lose == step(old(self).lose),
            c.hit_release == (old(self).hit == 1),
            c.win_note == if old(self).win > 0 && final(self).win == WIN_SECOND_NOTE {
                Some(2u8)
            } else if old(self).win > 0 && final(self).win == WIN_THIRD_NOTE {
                Some(3u8)
            } else {
                None
            },
            c.win_release == (old(self).win == 1),
            c.lose_step == (old(self).lose > 0),
            c.lose_release == (old(self).lose == 1),
    {
        let mut cues = BlockCues {
            hit_release: false,
            win_note: None,
            win_release: false,
            lose_step: false,
            lose_release: false,
        };
        if self.hit > 0 {
            self.hit = self.hit - 1;
            if self.hit == 0 {
                cues.hit_release = true;
            }
        }
        if self.win > 0 {
            self.win = self.win - 1;
            if self.win == 245 {
                cues.win_note = Some(2);
            } else if self.win == 190 {
                cues.win_note = Some(3);
            }
            if self.win == 0 {
                cues.win_release = true;
            }
        }
        if self.lose > 0 {
            self.lose = self.lose - 1;
            cues.lose_step = true;
            if self.lose == 0 {
                cues.lose_release = true;
            }
        }
        cues
    }
}

/// A countdown of `t` blocks stands at `t - k` after `k` blocks, and at zero
/// from block `t` on: a sound started with `t` blocks is released at block
/// `t` exactly, and at no other block.
pub proof fn lemma_countdown(t: u32, k: nat)
    ensures
        steps(t, k) == if k < t {
            t - k
        } else {
            0
        },
        k >= 1 ==> (steps(t, (k - 1) as nat) == 1 <==> (t > 0 && k == t)),
    decreases k,
{
    if k > 0 {
        lemma_countdown(t, (k - 1) as nat);
    }
}

/// The victory melody, started with `WIN_BLOCKS` to run: its second note
/// comes at block 55, its third at block 110, and it is released at block
/// 300.
pub proof fn lemma_win_melody(k: nat)
    requires
        k >= 1,
    ensures
        steps(WIN_BLOCKS, k) == WIN_SECOND_NOTE <==> k == 55,
        steps(WIN_BLOCKS, k) == WIN_THIRD_NOTE <==> k == 110,
        steps(WIN_BLOCKS, (k - 1) as nat) == 1 <==> k == 300,
{
    lemma_countdown(WIN_BLOCKS, k);
    lemma_countdown(WIN_BLOCKS, (k - 1) as nat);
}

} // verus!
