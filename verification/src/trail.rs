//! Transient "ghost" echoes left behind by a dash: each one is a purely
//! visual snapshot that fades out over a short, fixed decay time and is
//! then despawned. The fade level is kept as an exact fraction
//! `alpha_num / alpha_den` of remaining decay time over total decay time,
//! so that it starts at one and reaches zero exactly when the decay timer
//! completes.

use vstd::prelude::*;

verus! {

use crate::timer::Timer;

/// How long a ghost echo lasts before it is despawned, in milliseconds.
pub const GHOST_DECAY_MS: u64 = 100;

/// The decaying state of one ghost echo. Its position and appearance are
/// a frozen snapshot owned by the rendering side; only the decay lifecycle
/// is decided here.
#[derive(Clone, Copy, Debug, PartialEq, Eq, Structural)]
pub struct DashGhost {
    pub decay: Timer,
}

/// What the per-frame ghost pass decides for one ghost: despawn it, or
/// keep it and repaint it at opacity `alpha_num / alpha_den`.
#[derive(Clone, Copy, Debug, PartialEq, Eq, Structural)]
pub enum GhostStep {
    Despawn,
    Fade { alpha_num: u64, alpha_den: u64 },
}

impl DashGhost {
    pub open spec fn wf(self) -> bool {
        self.decay.wf()
    }

    /// A ghost still on screen: its decay timer has not yet completed.
    pub open spec fn live(self) -> bool {
        self.decay.elapsed_ms < self.decay.duration_ms
    }

    /// Numerator of the ghost's opacity: the decay time still remaining.
    /// The full opacity value is this over `decay.duration_ms`.
    pub open spec fn alpha_num(self) -> int {
        self.decay.duration_ms - self.decay.elapsed_ms
    }

    /// A ghost as spawned by the dash pass: full opacity, decay untouched.
    pub open spec fn spec_new() -> DashGhost {
        DashGhost { decay: Timer { elapsed_ms: 0, duration_ms: GHOST_DECAY_MS, just_finished: false } }
    }

    /// The ghost after its decay timer has ticked by `delta_ms`.
    pub open spec fn animated(self, delta_ms: u64) -> DashGhost {
        DashGhost { decay: self.decay.ticked(delta_ms) }
    }

    /// The decision taken for a ghost in the state after its tick.
    pub open spec fn spec_step(self) -> GhostStep {
        if self.decay.just_finished {
            GhostStep::Despawn
        } else {
            GhostStep::Fade {
                alpha_num: (self.decay.duration_ms - self.decay.elapsed_ms) as u64,
                alpha_den: self.decay.duration_ms,
            }
        }
    }

    /// Spawn a fresh ghost echo.
    pub fn new() -> (g: DashGhost)
        ensures
            g == DashGhost::spec_new(),
            g.wf(),
            g.live(),
    {
        DashGhost { decay: Timer::new(GHOST_DECAY_MS) }
    }

    /// Advance this ghost's decay by one frame of `delta_ms` and decide
    /// its fate: despawn once the decay completes, otherwise fade to the
    /// opacity fraction for the new elapsed time. Opacity never increases
    /// from one frame to the next, and it is zero exactly on the frame
    /// that completes the decay.
    pub fn animate_dash(&mut self, delta_ms: u64) -> (step: GhostStep)
        requires
            old(self).wf(),
            old(self).live(),
        ensures
            final(self).wf(),
            *final(self) == old(self).animated(delta_ms),
            step == final(self).spec_step(),
            final(self).alpha_num() <= old(self).alpha_num(),
            (step == GhostStep::Despawn) <==> final(self).alpha_num() == 0,
            (step == GhostStep::Despawn) <==> final(self).decay.finished(),
    {
        self.decay.tick(delta_ms);
        if self.decay.just_finished {
            GhostStep::Despawn
        } else {
            GhostStep::Fade {
                alpha_num: self.decay.duration_ms - self.decay.elapsed_ms,
                alpha_den: self.decay.duration_ms,
            }
        }
    }
}

/// The ghost after its decay timer has ticked once for each frame delta
/// in `deltas`, in order.
pub open spec fn animated_run(g: DashGhost, deltas: Seq<u64>) -> DashGhost
    decreases deltas.len(),
{
    if deltas.len() == 0 {
        g
    } else {
        animated_run(g, deltas.drop_last()).animated(deltas.last())
    }
}

/// A ghost's remaining opacity over a whole run of frames: ticking the
/// decay timer never raises the opacity, so over its lifetime the computed
/// alpha is non-increasing, and it is zero exactly when the decay timer
/// has completed.
pub proof fn lemma_ghost_alpha_monotone(g: DashGhost, deltas: Seq<u64>)
    requires
        g.wf(),
    ensures
        animated_run(g, deltas).wf(),
        animated_run(g, deltas).alpha_num() <= g.alpha_num(),
        animated_run(g, deltas).alpha_num() == 0 <==> animated_run(g, deltas).decay.finished(),
    decreases deltas.len(),
{
    if deltas.len() > 0 {
        lemma_ghost_alpha_monotone(g, deltas.drop_last());
    }
}

} // verus!
