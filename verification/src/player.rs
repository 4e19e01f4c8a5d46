//! The per-player dash state machine: a short speed boost gated by a
//! charge pool, a dash cooldown, and a charge-recovery timer, advanced
//! once per rendered frame. Each engine system of the prototype has its
//! counterpart here as a plain function of the state and the frame's
//! elapsed time; the engine binary performs the input polling, entity
//! spawning and rendering around these decisions.

use vstd::prelude::*;

verus! {

use crate::timer::Timer;
use crate::trail::DashGhost;

/// Base movement speed, in world units per second.
pub const PLAYER_SPEED: u64 = 100;
/// Speed multiplier while the dash boost is on.
pub const DASH_BOOST_MULTIPLIER: u64 = 80;
/// Length of one dash cooldown cycle, in milliseconds.
pub const DASH_COOLDOWN_MS: u64 = 200;
/// How far into the cooldown the speed boost lasts, in milliseconds.
pub const DASH_DURATION_MS: u64 = 100;
/// Time to recover one dash charge, in milliseconds.
pub const CHARGE_RECOVERY_MS: u64 = 1500;
/// Charges the player starts with, which is also the cap.
pub const MAX_CHARGES: u32 = 3;

/// Everything the dash subsystem reads or writes on the player entity.
/// The dash-active marker component of the prototype is the `dash_active`
/// field here; position and appearance stay with the engine.
#[derive(Clone, Copy, Debug, PartialEq, Eq, Structural)]
pub struct Player {
    /// Base movement speed, in world units per second.
    pub speed: u64,
    /// Current speed multiplier: `DASH_BOOST_MULTIPLIER` while boosted,
    /// 1 otherwise.
    pub dash_speed: u64,
    /// A dash cooldown cycle is in progress.
    pub dash_active: bool,
    /// Counts up from each dash; the dash ends when it completes.
    pub cooldown: Timer,
    /// How far into the cooldown the speed boost lasts, in milliseconds.
    pub dash_duration_ms: u64,
    /// Dash charges currently available.
    pub charges: u32,
    /// Cap on `charges`.
    pub max_charges: u32,
    /// Counts up towards the next recovered charge.
    pub charge_cooldown: Timer,
}

/// What one frame feeds the state machine: whether the dash key is held
/// (level-sensitive) and the frame's elapsed time.
#[derive(Clone, Copy, Debug, PartialEq, Eq, Structural)]
pub struct FrameInput {
    pub dash_pressed: bool,
    pub delta_ms: u64,
}

impl Player {
    /// The charge pool never leaves `[0, max_charges]`.
    pub open spec fn charges_in_range(self) -> bool {
        self.charges <= self.max_charges
    }

    /// The dash-active marker is present exactly while a dash cooldown
    /// cycle is in progress.
    pub open spec fn marker_matches_cooldown(self) -> bool {
        self.dash_active <==> self.cooldown.elapsed_ms < self.cooldown.duration_ms
    }

    /// The speed multiplier is the boosted value exactly while a dash is
    /// active and the elapsed cooldown time is still within the dash
    /// duration, and 1 otherwise.
    pub open spec fn multiplier_rule(self) -> bool {
        &&& (self.dash_speed == DASH_BOOST_MULTIPLIER <==> self.dash_active
            && self.cooldown.elapsed_ms <= self.dash_duration_ms)
        &&& (self.dash_speed == DASH_BOOST_MULTIPLIER || self.dash_speed == 1)
    }

    pub open spec fn wf(self) -> bool {
        &&& self.cooldown.wf()
        &&& self.charge_cooldown.wf()
        &&& self.charges_in_range()
        &&& self.marker_matches_cooldown()
        &&& self.multiplier_rule()
    }

    /// The state a player is spawned with: full charges, no dash in
    /// progress, so the cooldown stands at its end and the recovery timer
    /// at its start.
    pub open spec fn spec_initial() -> Player {
        Player {
            speed: PLAYER_SPEED,
            dash_speed: 1,
            dash_active: false,
            cooldown: (Timer {
                elapsed_ms: DASH_COOLDOWN_MS,
                duration_ms: DASH_COOLDOWN_MS,
                just_finished: false,
            }),
            dash_duration_ms: DASH_DURATION_MS,
            charges: MAX_CHARGES,
            max_charges: MAX_CHARGES,
            charge_cooldown: (Timer {
                elapsed_ms: 0,
                duration_ms: CHARGE_RECOVERY_MS,
                just_finished: false,
            }),
        }
    }

    /// A dash starts this frame: the key is held, no dash is already in
    /// progress, and a charge is available.
    pub open spec fn dash_triggered(self, dash_pressed: bool) -> bool {
        dash_pressed && !self.dash_active && self.charges > 0
    }

    /// The dash-trigger pass: on a trigger, spend a charge, restart the
    /// cooldown, raise the marker and boost the speed; otherwise leave
    /// the state untouched.
    pub open spec fn spec_dash(self, dash_pressed: bool) -> Player {
        if self.dash_triggered(dash_pressed) {
            Player {
                cooldown: self.cooldown.restarted(),
                charges: (self.charges - 1) as u32,
                dash_active: true,
                dash_speed: DASH_BOOST_MULTIPLIER,
                ..self
            }
        } else {
            self
        }
    }

    /// The dash-lifecycle pass, run only while a dash is active: the
    /// cooldown ticks; if it completes this frame the dash ends (marker
    /// down, boost off); otherwise the boost ends once the elapsed
    /// cooldown time passes the dash duration.
    pub open spec fn spec_handle(self, delta_ms: u64) -> Player {
        let t = self.cooldown.ticked(delta_ms);
        if t.just_finished {
            Player { cooldown: t, dash_active: false, dash_speed: 1, ..self }
        } else if t.elapsed_ms > self.dash_duration_ms {
            Player { cooldown: t, dash_speed: 1, ..self }
        } else {
            Player { cooldown: t, ..self }
        }
    }

    /// The charge-recovery pass: only while below the cap does recovery
    /// time accrue; each completed recovery cycle restores one charge and
    /// restarts the timer.
    pub open spec fn spec_recover(self, delta_ms: u64) -> Player {
        if self.charges < self.max_charges {
            let t = self.charge_cooldown.ticked(delta_ms);
            if t.just_finished {
                Player { charges: (self.charges + 1) as u32, charge_cooldown: t.restarted(), ..self }
            } else {
                Player { charge_cooldown: t, ..self }
            }
        } else {
            self
        }
    }

    /// One whole frame of the dash subsystem, in the order the passes are
    /// registered: trigger, lifecycle, recovery. The lifecycle pass runs
    /// on the marker state from before the trigger pass, since raising
    /// the marker is a deferred command that takes effect the following
    /// frame.
    pub open spec fn spec_frame(self, input: FrameInput) -> Player {
        let p1 = self.spec_dash(input.dash_pressed);
        let p2 = if self.dash_active {
            p1.spec_handle(input.delta_ms)
        } else {
            p1
        };
        p2.spec_recover(input.delta_ms)
    }

    /// Spawn a player in the initial state.
    pub fn new() -> (p: Player)
        ensures
            p == Player::spec_initial(),
            p.wf(),
            !p.dash_active,
            p.charges == p.max_charges,
    {
        Player {
            speed: PLAYER_SPEED,
            dash_speed: 1,
            dash_active: false,
            cooldown: Timer::new_finished(DASH_COOLDOWN_MS),
            dash_duration_ms: DASH_DURATION_MS,
            charges: MAX_CHARGES,
            max_charges: MAX_CHARGES,
            charge_cooldown: Timer::new(CHARGE_RECOVERY_MS),
        }
    }

    /// The dash-trigger pass. While the key is held this re-triggers as
    /// soon as no dash is active, as long as a charge is left; with no
    /// charge, or with a dash already active, nothing changes.
    pub fn dash(&mut self, dash_pressed: bool)
        requires
            old(self).wf(),
        ensures
            final(self).wf(),
            *final(self) == old(self).spec_dash(dash_pressed),
    {
        if dash_pressed && !self.dash_active && self.charges > 0 {
            self.cooldown.reset();
            self.charges = self.charges - 1;
            self.dash_active = true;
            self.dash_speed = DASH_BOOST_MULTIPLIER;
        }
    }

    /// The dash-lifecycle pass, for a frame on which a dash is active.
    /// Returns the ghost echo spawned this frame, one per active frame,
    /// for the engine side to place at the player's current position.
    pub fn handle_dash(&mut self, delta_ms: u64) -> (spawned: DashGhost)
        requires
            old(self).wf(),
            old(self).dash_active,
        ensures
            final(self).wf(),
            *final(self) == old(self).spec_handle(delta_ms),
            spawned == DashGhost::spec_new(),
    {
        self.cooldown.tick(delta_ms);
        if self.cooldown.just_finished {
            self.dash_active = false;
            self.dash_speed = 1;
        } else if self.cooldown.elapsed_ms > self.dash_duration_ms {
            self.dash_speed = 1;
        }
        DashGhost::new()
    }

    /// The charge-recovery pass, run every frame.
    pub fn recover_dash(&mut self, delta_ms: u64)
        requires
            old(self).wf(),
        ensures
            final(self).wf(),
            *final(self) == old(self).spec_recover(delta_ms),
    {
        if self.charges < self.max_charges {
            self.charge_cooldown.tick(delta_ms);
            if self.charge_cooldown.just_finished {
                self.charges = self.charges + 1;
                self.charge_cooldown.reset();
            }
        }
    }

    /// One whole frame of the dash subsystem. Returns the ghost echo to
    /// spawn, if the dash-lifecycle pass ran this frame.
    pub fn frame(&mut self, input: FrameInput) -> (spawned: Option<DashGhost>)
        requires
            old(self).wf(),
        ensures
            final(self).wf(),
            *final(self) == old(self).spec_frame(input),
            spawned == if old(self).dash_active {
                Some(DashGhost::spec_new())
            } else {
                None::<DashGhost>
            },
    {
        let was_active = self.dash_active;
        self.dash(input.dash_pressed);
        let spawned = if was_active {
            Some(self.handle_dash(input.delta_ms))
        } else {
            None
        };
        self.recover_dash(input.delta_ms);
        spawned
    }

    /// The scalar factor of this frame's movement: base speed times the
    /// current dash multiplier. The engine side scales the normalized
    /// input direction and the frame time by it.
    pub fn speed_factor(&self) -> (f: u64)
        requires
            self.speed * self.dash_speed <= u64::MAX,
        ensures
            f == self.speed * self.dash_speed,
    {
        self.speed * self.dash_speed
    }
}

/// The movement direction the held keys ask for, one unit per axis:
/// up and down move along y, left and right along x, and opposite keys
/// cancel. The engine side normalizes and scales it.
pub fn move_direction(up: bool, down: bool, left: bool, right: bool) -> (d: (i8, i8))
    ensures
        d.0 == (if right { 1int } else { 0int }) - (if left { 1int } else { 0int }),
        d.1 == (if up { 1int } else { 0int }) - (if down { 1int } else { 0int }),
{
    let mut x: i8 = 0;
    let mut y: i8 = 0;
    if up {
        y = y + 1;
    }
    if down {
        y = y - 1;
    }
    if left {
        x = x - 1;
    }
    if right {
        x = x + 1;
    }
    (x, y)
}

/// The state after `frames` whole frames, applied in order.
pub open spec fn spec_run(p: Player, frames: Seq<FrameInput>) -> Player
    decreases frames.len(),
{
    if frames.len() == 0 {
        p
    } else {
        spec_run(p, frames.drop_last()).spec_frame(frames.last())
    }
}

/// Each pass of one frame keeps the player well-formed; in particular the
/// charge count stays within `[0, max_charges]`, the dash-active marker is
/// present exactly while a dash cooldown cycle is in progress, and the
/// speed multiplier follows the dash-duration rule.
pub proof fn lemma_frame_preserves_wf(p: Player, input: FrameInput)
    requires
        p.wf(),
    ensures
        p.spec_frame(input).wf(),
        p.spec_frame(input).charges_in_range(),
        p.spec_frame(input).marker_matches_cooldown(),
        p.spec_frame(input).multiplier_rule(),
{
    lemma_dash_preserves_wf(p, input.dash_pressed);
    let p1 = p.spec_dash(input.dash_pressed);
    let p2 = if p.dash_active {
        p1.spec_handle(input.delta_ms)
    } else {
        p1
    };
    if p.dash_active {
        lemma_handle_preserves_wf(p1, input.delta_ms);
    }
    lemma_recover_preserves_wf(p2, input.delta_ms);
}

/// The dash-trigger pass keeps the player well-formed.
pub proof fn lemma_dash_preserves_wf(p: Player, dash_pressed: bool)
    requires
        p.wf(),
    ensures
        p.spec_dash(dash_pressed).wf(),
{
}

/// The dash-lifecycle pass keeps the player well-formed.
pub proof fn lemma_handle_preserves_wf(p: Player, delta_ms: u64)
    requires
        p.wf(),
        p.dash_active,
    ensures
        p.spec_handle(delta_ms).wf(),
{
}

/// The charge-recovery pass keeps the player well-formed.
pub proof fn lemma_recover_preserves_wf(p: Player, delta_ms: u64)
    requires
        p.wf(),
    ensures
        p.spec_recover(delta_ms).wf(),
{
}

/// Over any run of frames from a well-formed state, the player stays
/// well-formed: at every frame the charge count is within
/// `[0, max_charges]`, the dash-active marker is present exactly while a
/// dash cooldown cycle is in progress, and the speed multiplier is the
/// boosted value exactly while a dash is active with its elapsed cooldown
/// time within the dash duration, and 1 otherwise.
pub proof fn lemma_run_preserves_wf(p: Player, frames: Seq<FrameInput>)
    requires
        p.wf(),
    ensures
        spec_run(p, frames).wf(),
        spec_run(p, frames).charges_in_range(),
        spec_run(p, frames).marker_matches_cooldown(),
        spec_run(p, frames).multiplier_rule(),
    decreases frames.len(),
{
    if frames.len() > 0 {
        lemma_run_preserves_wf(p, frames.drop_last());
        lemma_frame_preserves_wf(spec_run(p, frames.drop_last()), frames.last());
    }
}

/// Pressing the dash key with no charges left changes nothing: the
/// trigger pass leaves the whole player state untouched.
pub proof fn lemma_dash_without_charges_is_noop(p: Player, dash_pressed: bool)
    requires
        p.charges == 0,
    ensures
        p.spec_dash(dash_pressed) == p,
{
}

} // verus!
