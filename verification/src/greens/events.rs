//! The events a round raises for the game loop: explosions (with the
//! position, as "x,y" text) and the floppy disk being eaten.
use vstd::prelude::*;

use crate::text::str_eq;

verus! {

/// What an event is about.
#[derive(Debug, Clone, Copy, PartialEq, Eq)]
pub enum StateEvent<'a> {
    /// A red head's countdown ran out at the given coordinates: the greens are gone.
    Explode(&'a str),
    /// A red head was clicked at the given coordinates.
    ClickRed(&'a str),
    /// A chaser ate the floppy disk.
    DisquetteConsumed,
    /// Anything else.
    Other,
}

/// Whether `s` begins with `prefix`.
pub open spec fn has_prefix(s: Seq<char>, prefix: Seq<char>) -> bool {
    prefix.len() <= s.len() && s.subrange(0, prefix.len() as int) == prefix
}

/// `s` without the `prefix` it begins with, if it does.
fn strip_prefix<'a>(s: &'a str, prefix: &str) -> (r: Option<&'a str>)
    ensures
        has_prefix(s@, prefix@) ==> r is Some && r.unwrap()@ == s@.subrange(
            prefix@.len() as int,
            s@.len() as int,
        ),
        !has_prefix(s@, prefix@) ==> r is None,
{
    let n = s.unicode_len();
    let m = prefix.unicode_len();
    if m > n {
        return None;
    }
    let mut i: usize = 0;
    while i < m
        invariant
            n == s@.len(),
            m == prefix@.len(),
            m <= n,
            i <= m,
            forall|k: int| 0 <= k < i ==> s@[k] == prefix@[k],
        decreases m - i,
    {
        if s.get_char(i) != prefix.get_char(i) {
            assert(s@.subrange(0, m as int)[i as int] != prefix@[i as int]);
            return None;
        }
        i = i + 1;
    }
    assert(s@.subrange(0, m as int) =~= prefix@);
    Some(s.substring_char(m, n))
}

/// The kind of an event: "explode:" and "click_red:" followed by the
/// coordinates, or exactly "disquette_consumed".
pub fn classify_event<'a>(event: &'a str) -> (e: StateEvent<'a>)
    ensures
        match e {
            StateEvent::Explode(c) => has_prefix(event@, "explode:"@) && c@ == event@.subrange(
                8,
                event@.len() as int,
            ),
            StateEvent::ClickRed(c) => !has_prefix(event@, "explode:"@) && has_prefix(
                event@,
                "click_red:"@,
            ) && c@ == event@.subrange(10, event@.len() as int),
            StateEvent::DisquetteConsumed => !has_prefix(event@, "explode:"@) && !has_prefix(
                event@,
                "click_red:"@,
            ) && event@ == "disquette_consumed"@,
            StateEvent::Other => !has_prefix(event@, "explode:"@) && !has_prefix(
                event@,
                "click_red:"@,
            ) && event@ != "disquette_consumed"@,
        },
{
    proof {
        reveal_strlit("explode:");
        reveal_strlit("click_red:");
    }
    if let Some(c) = strip_prefix(event, "explode:") {
        StateEvent::Explode(c)
    } else if let Some(c) = strip_prefix(event, "click_red:") {
        StateEvent::ClickRed(c)
    } else if str_eq(event, "disquette_consumed") {
        StateEvent::DisquetteConsumed
    } else {
        StateEvent::Other
    }
}

} // verus!
