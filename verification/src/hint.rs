//! The hint beside the cursor: one line of text that is shown, cleared, or flashed for a moment.

use vstd::prelude::*;

use crate::timer::{left, time_left};

verus! {

/// Shown while the phone records.
pub const AUX_RECORDING: &'static str = "🎤 正在录音…";

/// Shown while the phone makes a text of the recording.
pub const AUX_TRANSCRIBING: &'static str = "⏳ 正在转录…";

/// Shown while a failed connection is tried again.
pub const AUX_RETRY: &'static str = "连接失败，正在重试…";

/// How long a flash is shown, in nanoseconds.
pub const FLASH_TIME: u64 = 3_000_000_000;

/// What to do to the hint.
#[derive(Debug, PartialEq, Eq)]
pub enum Hint<S> {
    Show(S),
    Clear,
    /// Show it for the time of a flash, and clear it then unless another was shown meanwhile.
    Flash(S),
}

impl View for Hint<String> {
    type V = Hint<Seq<char>>;

    open spec fn view(&self) -> Hint<Seq<char>> {
        match self {
            Hint::Show(text) => Hint::Show(text@),
            Hint::Clear => Hint::Clear,
            Hint::Flash(text) => Hint::Flash(text@),
        }
    }
}

/// The hint that something went wrong.
pub open spec fn trouble(message: Seq<char>) -> Hint<Seq<char>> {
    Hint::Flash("❌ "@ + message)
}

/// The hint that something went wrong.
pub fn flash_trouble(message: &str) -> (r: Hint<String>)
    ensures
        r@ == trouble(message@),
{
    Hint::Flash("❌ ".to_string().concat(message))
}

/// Counts the hints that were shown, so that a flash knows whether it is still the last.
#[derive(Clone, Copy, Debug, PartialEq, Eq, Structural)]
pub struct HintCount {
    pub shown: u64,
}

/// A hint that flashes: its token, and since when it is shown, in nanoseconds of a clock that never
/// goes back.
#[derive(Clone, Copy, Debug, PartialEq, Eq, Structural)]
pub struct Flash {
    pub token: u64,
    pub since: u64,
}

/// What to do about a flash.
#[derive(Clone, Copy, Debug, PartialEq, Eq, Structural)]
pub enum FlashStep {
    /// Wait for so many nanoseconds.
    Wait(u64),
    /// Clear the hint.
    Clear,
    /// Leave the hint alone: it is another's.
    Leave,
}

/// What to do about a flash, when so many hints were shown.
pub open spec fn flash_outcome(count: HintCount, flash: Flash, now: u64) -> FlashStep {
    if left(flash.since, FLASH_TIME, now) > 0 {
        FlashStep::Wait(left(flash.since, FLASH_TIME, now))
    } else if count.shown == flash.token {
        FlashStep::Clear
    } else {
        FlashStep::Leave
    }
}

/// The number that follows, on a counter that begins anew after its last.
pub open spec fn following(n: u64) -> u64 {
    if n == u64::MAX {
        0
    } else {
        (n + 1) as u64
    }
}

/// The number that stands `steps` further on.
pub open spec fn further(n: u64, steps: nat) -> u64
    decreases steps,
{
    if steps == 0 {
        n
    } else {
        following(further(n, (steps - 1) as nat))
    }
}

impl HintCount {
    /// With no hint shown yet.
    pub fn new() -> (r: HintCount)
        ensures
            r.shown == 0,
    {
        HintCount { shown: 0 }
    }

    /// A hint is shown. The result is what `is_last` asks for.
    pub fn show(&mut self) -> (token: u64)
        ensures
            token == following(old(self).shown),
            final(self).shown == token,
    {
        self.shown = self.shown.wrapping_add(1);
        self.shown
    }

    /// A hint begins to flash.
    pub fn begin_flash(&mut self, now: u64) -> (r: Flash)
        ensures
            r == (Flash { token: following(old(self).shown), since: now }),
            final(self).shown == r.token,
    {
        Flash { token: self.show(), since: now }
    }

    /// What to do about a flash: it is shown for its time, and then cleared unless another hint was
    /// shown meanwhile.
    pub fn flash_step(&self, flash: Flash, now: u64) -> (r: FlashStep)
        ensures
            r == flash_outcome(*self, flash, now),
    {
        let time: u64 = time_left(flash.since, FLASH_TIME, now);
        if time > 0 {
            FlashStep::Wait(time)
        } else if self.is_last(flash.token) {
            FlashStep::Clear
        } else {
            FlashStep::Leave
        }
    }

    /// Whether no hint was shown since the one with this token, so that it may be cleared.
    pub fn is_last(&self, token: u64) -> (r: bool)
        ensures
            r == (self.shown == token),
    {
        self.shown == token
    }
}

/// A flash is cleared after its time exactly where no hint was shown since, and not before; a later
/// hint is never cleared by it. Of the hints that are shown after it there are fewer than tokens.
pub proof fn a_flash_spares_later_hints(count: HintCount, since: u64, later: nat, now: u64)
    requires
        later <= u64::MAX,
    ensures
        ({
            let flash = Flash { token: following(count.shown), since };
            let after = HintCount { shown: further(flash.token, later) };
            &&& flash_outcome(after, flash, now) == FlashStep::Clear <==> now - since
                >= FLASH_TIME && later == 0
            &&& flash_outcome(after, flash, now) == FlashStep::Leave <==> now - since
                >= FLASH_TIME && later > 0
        }),
{
    lemma_further(following(count.shown), later);
}

proof fn lemma_further(n: u64, steps: nat)
    requires
        steps <= u64::MAX,
    ensures
        further(n, steps) == if n + steps <= u64::MAX {
            n + steps
        } else {
            n + steps - u64::MAX - 1
        },
    decreases steps,
{
    if steps > 0 {
        lemma_further(n, (steps - 1) as nat);
    }
}

} // verus!
