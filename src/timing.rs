use vstd::prelude::*;

verus! {

/// Delay between two scheduled repaints, in milliseconds.
pub const FRAME_INTERVAL_MS: u64 = 20;

/// Raw value of the timer token that no scheduled timer ever carries.
pub const INVALID_TIMER: u64 = 0;

/// Number of whole frame intervals contained in an elapsed time.
pub open spec fn frame_count(elapsed_ms: nat) -> nat {
    elapsed_ms / (FRAME_INTERVAL_MS as nat)
}

/// Number of whole frame intervals that have elapsed: the horizontal
/// scroll offset of the waveform, in pixel columns.
pub fn frame_offset(elapsed_ms: u64) -> (r: u64)
    ensures
        r as nat == frame_count(elapsed_ms as nat),
{
    elapsed_ms / FRAME_INTERVAL_MS
}

/// What the host delivers to the canvas, reduced to what the canvas reads.
#[derive(Clone, Copy, Debug, PartialEq, Eq, Structural)]
pub enum CanvasEvent {
    /// The canvas was attached to a running window.
    WindowConnected,
    /// A timer fired; it carries the raw value of its token.
    Timer(u64),
    /// Any other event: the canvas ignores it.
    Other,
}

/// What the host is asked to do in answer to an event.
#[derive(Clone, Copy, Debug, PartialEq, Eq, Structural)]
pub enum CanvasAction {
    /// Nothing to do.
    Ignore,
    /// Request a repaint and schedule a timer `FRAME_INTERVAL_MS` from now,
    /// then hand its token to `CanvasTimer::timer_scheduled`.
    RepaintAndSchedule,
}

/// Whether `event` is the firing of the timer whose token is stored.
pub open spec fn is_current_tick(stored: u64, event: CanvasEvent) -> bool {
    match event {
        CanvasEvent::Timer(t) => t == stored,
        _ => false,
    }
}

/// The action owed in answer to `event` while `stored` is the current token.
pub open spec fn action_for(stored: u64, event: CanvasEvent) -> CanvasAction {
    if event == CanvasEvent::WindowConnected || is_current_tick(stored, event) {
        CanvasAction::RepaintAndSchedule
    } else {
        CanvasAction::Ignore
    }
}

/// Elapsed time after `event`: one frame interval more on a current tick,
/// unchanged otherwise.
pub open spec fn elapsed_after(stored: u64, elapsed_ms: nat, event: CanvasEvent) -> nat {
    if is_current_tick(stored, event) {
        elapsed_ms + FRAME_INTERVAL_MS as nat
    } else {
        elapsed_ms
    }
}

/// Elapsed time after a run of ticks, starting from `start_ms`, where the
/// timer carrying `tokens[i]` is the current one when it fires.
pub open spec fn elapsed_after_ticks(tokens: Seq<u64>, start_ms: nat) -> nat
    decreases tokens.len(),
{
    if tokens.len() == 0 {
        start_ms
    } else {
        let t = tokens.last();
        elapsed_after(t, elapsed_after_ticks(tokens.drop_last(), start_ms), CanvasEvent::Timer(t))
    }
}

/// The timer state of the waveform canvas: the token of the timer that is
/// currently pending. Tokens of earlier timers are stale.
pub struct CanvasTimer {
    pub token: u64,
}

impl CanvasTimer {
    /// A canvas with no timer scheduled yet.
    pub fn new() -> (r: CanvasTimer)
        ensures
            r.token == INVALID_TIMER,
    {
        CanvasTimer { token: INVALID_TIMER }
    }

    /// Handles one event. On the first activation and on each firing of the
    /// current timer the canvas asks for a repaint and a new timer; a current
    /// tick also advances the elapsed time by one frame interval. A stale
    /// tick, and any other event, changes nothing.
    pub fn event(&mut self, event: &CanvasEvent, elapsed_ms: &mut u64) -> (action: CanvasAction)
        requires
            is_current_tick(old(self).token, *event) ==> *old(elapsed_ms) <= u64::MAX
                - FRAME_INTERVAL_MS,
        ensures
            action == action_for(old(self).token, *event),
            *final(elapsed_ms) as nat == elapsed_after(
                old(self).token,
                *old(elapsed_ms) as nat,
                *event,
            ),
            final(self).token == old(self).token,
    {
        match event {
            CanvasEvent::WindowConnected => CanvasAction::RepaintAndSchedule,
            CanvasEvent::Timer(t) => {
                if *t == self.token {
                    *elapsed_ms = *elapsed_ms + FRAME_INTERVAL_MS;
                    CanvasAction::RepaintAndSchedule
                } else {
                    CanvasAction::Ignore
                }
            },
            CanvasEvent::Other => CanvasAction::Ignore,
        }
    }

    /// Records the token of the timer just scheduled: from now on it is the
    /// current one and every earlier token is stale.
    pub fn timer_scheduled(&mut self, token: u64)
        ensures
            final(self).token == token,
    {
        self.token = token;
    }
}

/// After `n` firings of the timer that is current each time, the elapsed
/// time has grown by exactly `n` frame intervals.
pub proof fn lemma_ticks_advance_time(tokens: Seq<u64>, start_ms: nat)
    ensures
        elapsed_after_ticks(tokens, start_ms) == start_ms + tokens.len() * (
        FRAME_INTERVAL_MS as nat),
    decreases tokens.len(),
{
    if tokens.len() > 0 {
        lemma_ticks_advance_time(tokens.drop_last(), start_ms);
        assert(start_ms + (tokens.len() - 1) * 20 + 20 == start_ms + tokens.len() * 20)
            by (nonlinear_arith);
    }
}

/// A firing whose token is not the stored one asks for nothing and leaves
/// the elapsed time as it was.
pub proof fn lemma_stale_tick_ignored(stored: u64, fired: u64, elapsed_ms: nat)
    requires
        fired != stored,
    ensures
        action_for(stored, CanvasEvent::Timer(fired)) == CanvasAction::Ignore,
        elapsed_after(stored, elapsed_ms, CanvasEvent::Timer(fired)) == elapsed_ms,
{
}

} // verus!
