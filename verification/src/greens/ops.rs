//! How the game answers the embedding page's operations and the player's
//! clicks, phase by phase.
use vstd::prelude::*;

use crate::greens::computer::{ComputerPhase, ComputerState, PowerButtonAction};
use crate::greens::os::Os;
use crate::greens::state::{GamePhase, RoundStatus};
use crate::text::str_eq;

verus! {

/// The verb the game announces when a round starts.
pub const START_VERB: &'static str = "eat your greens";

/// What an operation from the embedding page did.
#[derive(Debug, Clone, Copy, PartialEq, Eq, Structural)]
pub enum OpReply {
    /// A new round started; the page is to be told, with `START_VERB`.
    Started,
    /// The computer finished booting and is on.
    BootFinished,
    /// The computer's system is busy; nothing changes.
    Computing,
    /// The computer shut down and play resumed.
    ShutDown,
    /// The operation does not fit the phase and was ignored.
    Unexpected,
}

/// The reply to operation `op` in phase `phase`.
pub open spec fn op_reply(phase: GamePhase, is_embedded: bool, op: Seq<char>) -> OpReply {
    match phase {
        GamePhase::Waiting | GamePhase::Finished => if is_embedded && op == "start"@ {
            OpReply::Started
        } else {
            OpReply::Unexpected
        },
        GamePhase::Computer(ComputerPhase::Booting) => if op == "video_finished"@ {
            OpReply::BootFinished
        } else {
            OpReply::Unexpected
        },
        GamePhase::Computer(ComputerPhase::On) => if op == "computing"@ {
            OpReply::Computing
        } else if op == "shutdown"@ {
            OpReply::ShutDown
        } else {
            OpReply::Unexpected
        },
        _ => OpReply::Unexpected,
    }
}

/// Only an embedded game starts rounds on the page's request, and a game in
/// play answers no operation at all.
pub proof fn lemma_ops_by_phase(phase: GamePhase, is_embedded: bool, op: Seq<char>)
    ensures
        !is_embedded ==> op_reply(phase, is_embedded, op) != OpReply::Started,
        phase == GamePhase::Playing ==> op_reply(phase, is_embedded, op) == OpReply::Unexpected,
        op_reply(phase, is_embedded, op) == OpReply::Started ==> (phase == GamePhase::Waiting
            || phase == GamePhase::Finished),
{
}

/// Answers an operation from the embedding page. An embedded game that is
/// waiting or finished starts a round on "start" (score 0, computer off);
/// a booting computer is on after "video_finished"; a running computer
/// keeps computing on "computing" and shuts down, handing play back, on
/// "shutdown". Anything else changes nothing.
pub fn receive_op(
    round: &mut RoundStatus,
    computer: &mut ComputerState,
    is_embedded: bool,
    op: &str,
) -> (r: OpReply)
    ensures
        r == op_reply(old(round).phase_spec(), is_embedded, op@),
        r == OpReply::Started ==> {
            &&& final(round).phase_spec() == GamePhase::Playing
            &&& final(round).score_spec() == 0
            &&& final(computer).phase == ComputerPhase::Off
            &&& final(computer).os == Os::mirroring(ComputerPhase::Off)
        },
        r == OpReply::BootFinished ==> {
            &&& final(round).phase_spec() == GamePhase::Computer(ComputerPhase::On)
            &&& final(round).score_spec() == old(round).score_spec()
            &&& final(computer).phase == ComputerPhase::On
            &&& final(computer).os == Os::mirroring(ComputerPhase::On)
        },
        r == OpReply::ShutDown ==> {
            &&& final(round).phase_spec() == GamePhase::Playing
            &&& final(round).score_spec() == old(round).score_spec()
            &&& final(computer).phase == ComputerPhase::Off
            &&& final(computer).os == Os::mirroring(ComputerPhase::Off)
        },
        r == OpReply::Computing || r == OpReply::Unexpected ==> {
            &&& *final(round) == *old(round)
            &&& *final(computer) == *old(computer)
        },
{
    proof {
        reveal_strlit("start");
        reveal_strlit("video_finished");
        reveal_strlit("computing");
        reveal_strlit("shutdown");
    }
    match round.phase() {
        GamePhase::Waiting | GamePhase::Finished => {
            if is_embedded && str_eq(op, "start") {
                round.start_round();
                *computer = ComputerState::new();
                OpReply::Started
            } else {
                OpReply::Unexpected
            }
        },
        GamePhase::Computer(ComputerPhase::Booting) => {
            if str_eq(op, "video_finished") {
                round.set_phase(GamePhase::Computer(ComputerPhase::On));
                computer.on();
                OpReply::BootFinished
            } else {
                OpReply::Unexpected
            }
        },
        GamePhase::Computer(ComputerPhase::On) => {
            if str_eq(op, "computing") {
                OpReply::Computing
            } else if str_eq(op, "shutdown") {
                computer.shutdown();
                round.set_phase(GamePhase::Playing);
                OpReply::ShutDown
            } else {
                OpReply::Unexpected
            }
        },
        _ => OpReply::Unexpected,
    }
}

/// A click on the computer's power button: a computer not yet used this
/// round, with the disk inserted, boots when the button says "on", and the
/// computer takes over the screen. Returns whether it booted (the caller
/// then starts the boot video).
pub fn press_power_button(
    round: &mut RoundStatus,
    computer: &mut ComputerState,
    disquette_inserted: bool,
    action: Option<PowerButtonAction>,
) -> (booted: bool)
    ensures
        booted == (old(computer).phase == ComputerPhase::Off && disquette_inserted && action
            == Some(PowerButtonAction::On)),
        booted ==> {
            &&& final(computer).phase == ComputerPhase::Booting
            &&& final(computer).os == Os::mirroring(ComputerPhase::Booting)
            &&& final(round).phase_spec() == GamePhase::Computer(ComputerPhase::Booting)
            &&& final(round).score_spec() == old(round).score_spec()
        },
        !booted ==> *final(round) == *old(round) && *final(computer) == *old(computer),
{
    if !computer.already_used() && disquette_inserted {
        if let Some(a) = action {
            if a == PowerButtonAction::On {
                computer.boot();
                round.set_phase(GamePhase::Computer(ComputerPhase::Booting));
                return true;
            }
        }
    }
    false
}

/// What the rest of a click does, once the power button has had its turn.
#[derive(Debug, Clone, Copy, PartialEq, Eq, Structural)]
pub enum PressAction {
    /// The mute button was clicked: mute or unmute.
    ToggleMute,
    /// Start a new round.
    StartRound,
    /// Try to eat the head under the pointer.
    Click,
    /// Nothing happens.
    Ignore,
}

/// The action of a click: the mute button comes first; then a waiting game
/// starts on its start button, a playing game eats, a finished game that is
/// not embedded starts again, and the computer ignores clicks.
pub fn press_action(phase: GamePhase, is_embedded: bool, on_mute: bool, on_start: bool) -> (a:
    PressAction)
    ensures
        a == if on_mute {
            PressAction::ToggleMute
        } else {
            match phase {
                GamePhase::Waiting => if on_start {
                    PressAction::StartRound
                } else {
                    PressAction::Ignore
                },
                GamePhase::Playing => PressAction::Click,
                GamePhase::Finished => if !is_embedded {
                    PressAction::StartRound
                } else {
                    PressAction::Ignore
                },
                GamePhase::Computer(_) => PressAction::Ignore,
            }
        },
{
    if on_mute {
        return PressAction::ToggleMute;
    }
    match phase {
        GamePhase::Waiting => if on_start {
            PressAction::StartRound
        } else {
            PressAction::Ignore
        },
        GamePhase::Playing => PressAction::Click,
        GamePhase::Finished => if !is_embedded {
            PressAction::StartRound
        } else {
            PressAction::Ignore
        },
        GamePhase::Computer(_) => PressAction::Ignore,
    }
}

} // verus!
