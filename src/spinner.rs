//! The progress service: one worker that renders at most one spinner at a
//! time. Its requests come through a channel without a buffer, so a request
//! is taken only once the previous spinner has been cleared and acknowledged.
use vstd::prelude::*;

verus! {

/// The frame interval while a spinner is young, so that quick work stops it quickly.
pub const FAST_TICK_MS: u64 = 16;

/// The frame interval once a spinner has run for a while, to spare the CPU.
pub const SLOW_TICK_MS: u64 = 100;

/// How long a spinner counts as young.
pub const FAST_PHASE_MS: u64 = 100;

/// The pause after a frame, given how long the spinner has been shown.
pub fn tick_interval_ms(elapsed_ms: u64) -> (r: u64)
    ensures
        r == (if elapsed_ms < FAST_PHASE_MS {
            FAST_TICK_MS
        } else {
            SLOW_TICK_MS
        }),
{
    if elapsed_ms < FAST_PHASE_MS {
        FAST_TICK_MS
    } else {
        SLOW_TICK_MS
    }
}

/// The worker's record of the spinners it has served.
pub struct SpinnerWorker {
    active: bool,
    started: Ghost<nat>,
    cleared: Ghost<nat>,
}

impl SpinnerWorker {
    /// Whether a spinner is being rendered now.
    pub closed spec fn is_active(&self) -> bool {
        self.active
    }

    /// How many spinners have been started.
    pub closed spec fn started(&self) -> nat {
        self.started@
    }

    /// How many spinners have been cleared and acknowledged.
    pub closed spec fn cleared(&self) -> nat {
        self.cleared@
    }

    /// Every spinner but the one being rendered, if any, has been cleared and
    /// acknowledged: at most one is ever active.
    pub open spec fn wf(&self) -> bool {
        self.started() == self.cleared() + if self.is_active() {
            1nat
        } else {
            0nat
        }
    }

    /// A worker that has served no spinner.
    pub fn new() -> (r: Self)
        ensures
            r.wf(),
            !r.is_active(),
            r.started() == 0,
    {
        SpinnerWorker { active: false, started: Ghost(0), cleared: Ghost(0) }
    }

    pub fn is_spinning(&self) -> (r: bool)
        ensures
            r == self.is_active(),
    {
        self.active
    }

    /// Takes a request to start a spinner: accepted only while none is active.
    pub fn start(&mut self) -> (accepted: bool)
        requires
            old(self).wf(),
        ensures
            final(self).wf(),
            accepted == !old(self).is_active(),
            final(self).is_active(),
            final(self).started() == old(self).started() + if accepted {
                1nat
            } else {
                0nat
            },
            final(self).cleared() == old(self).cleared(),
    {
        if self.active {
            false
        } else {
            self.active = true;
            self.started = Ghost(self.started@ + 1);
            true
        }
    }

    /// Records that the active spinner was cleared and its requester told.
    pub fn clear(&mut self) -> (was_active: bool)
        requires
            old(self).wf(),
        ensures
            final(self).wf(),
            was_active == old(self).is_active(),
            !final(self).is_active(),
            final(self).started() == old(self).started(),
            final(self).cleared() == old(self).cleared() + if was_active {
                1nat
            } else {
                0nat
            },
    {
        if self.active {
            self.active = false;
            self.cleared = Ghost(self.cleared@ + 1);
            true
        } else {
            false
        }
    }
}

/// Whatever order requests and acknowledgements come in, a spinner starts
/// only when every earlier one has been cleared and acknowledged, so no two
/// are ever rendered at once.
pub proof fn lemma_single_active_spinner(w: SpinnerWorker)
    requires
        w.wf(),
    ensures
        w.is_active() ==> w.started() == w.cleared() + 1,
        !w.is_active() ==> w.started() == w.cleared(),
        w.cleared() <= w.started() <= w.cleared() + 1,
{
}

} // verus!
