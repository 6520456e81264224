use vstd::prelude::*;
use crate::store::ParticleStore;
use crate::timer::{SpawnTimer, TimerDuration, tick_finishes, elapsed_after_tick};

verus! {

/// What a one-shot spawner does once it has spawned its particles.
#[derive(Clone, Copy, Debug, PartialEq, Eq, Structural)]
pub enum OneShot {
    /// The spawner stops spawning.
    Deactivate,
    /// The spawner stops spawning and is despawned once its particles are gone.
    Despawn,
}

impl Default for OneShot {
    fn default() -> (r: Self)
        ensures
            r == OneShot::Deactivate,
    {
        OneShot::Deactivate
    }
}

/// The per-spawner state that drives spawning.
#[derive(Clone, Debug)]
pub struct ParticleSpawnerState<S> {
    /// No particle is spawned in a frame that starts with at least this many particles.
    pub max_particles: u32,
    /// Whether the spawner spawns at all.
    pub active: bool,
    /// Repeating timer whose period is the effect's spawn rate.
    pub timer: SpawnTimer,
    /// The spawner's position in the previous frame, tracked for relative positioning.
    pub previous_position: Option<(S, S, S)>,
    /// Positions at which particles reached an attractor during the current frame.
    pub attractor_arrivals: Vec<(S, S, S)>,
}

impl<S> Default for ParticleSpawnerState<S> {
    fn default() -> (r: Self)
        ensures
            r.max_particles == u32::MAX,
            r.active,
            r.timer.wf(),
            r.timer.duration.total() == 0,
            r.timer.elapsed.total() == 0,
            !r.timer.finished,
            r.previous_position is None,
            r.attractor_arrivals@ == Seq::<(S, S, S)>::empty(),
    {
        ParticleSpawnerState {
            active: true,
            max_particles: u32::MAX,
            timer: SpawnTimer::new(TimerDuration::zero()),
            previous_position: None,
            attractor_arrivals: Vec::new(),
        }
    }
}

/// What a frame's update does after the spawner decisions.
#[derive(Clone, Copy, Debug, PartialEq)]
pub struct FramePlan<S> {
    /// How many particles to spawn this frame.
    pub spawn: u32,
    /// The position from which the particles are shifted by the spawner's
    /// movement (the current position minus this one); `None` means no shift.
    pub shift_origin: Option<(S, S, S)>,
}

/// Whether a frame's update goes on past its early exits: the spawner is below its
/// particle limit (compared with the particle count cut to 32 bits) and has an effect.
pub open spec fn update_proceeds(max_particles: u32, store_len: usize, has_effect: bool) -> bool {
    !(max_particles <= store_len as u32) && has_effect
}

/// How many particles spawn when the timer has `finished` or not.
pub open spec fn spawn_count(finished: bool, active: bool, spawn_amount: u32) -> u32 {
    if finished && active {
        spawn_amount
    } else {
        0
    }
}

/// Whether the spawner stays active after a spawn decision.
pub open spec fn stays_active(finished: bool, active: bool, one_shot: bool) -> bool {
    active && !(finished && one_shot)
}

/// A one-shot spawner spawns in one frame at most: once it has spawned, it is
/// inactive and spawns nothing in any later frame, whatever its timer does.
pub proof fn lemma_one_shot_spawns_once(finished: bool, spawn_amount: u32, later_finished: bool, later_amount: u32)
    requires
        spawn_count(finished, true, spawn_amount) > 0,
    ensures
        !stays_active(finished, true, true),
        spawn_count(later_finished, stays_active(finished, true, true), later_amount) == 0,
{
}

/// A spawn decision never activates a spawner: an inactive spawner spawns
/// nothing and stays inactive, a spawner that is not one-shot keeps its state,
/// and a one-shot spawner whose timer finished is inactive afterwards. An active
/// spawner spawns the full amount exactly when its timer finished.
pub proof fn lemma_spawn_decision_never_activates(finished: bool, active: bool, one_shot: bool, spawn_amount: u32)
    ensures
        stays_active(finished, active, one_shot) ==> active,
        !one_shot ==> stays_active(finished, active, one_shot) == active,
        finished && one_shot ==> !stays_active(finished, active, one_shot),
        !finished ==> stays_active(finished, active, one_shot) == active,
        !active ==> spawn_count(finished, active, spawn_amount) == 0,
        active ==> spawn_count(finished, active, spawn_amount) == (if finished { spawn_amount } else { 0 }),
{
}

/// A spawner at its particle limit, or without an effect, does not update.
pub proof fn lemma_no_update_at_the_limit(max_particles: u32, store_len: usize, has_effect: bool)
    requires
        store_len <= u32::MAX,
        max_particles <= store_len || !has_effect,
    ensures
        !update_proceeds(max_particles, store_len, has_effect),
{
}

impl<S: Copy> ParticleSpawnerState<S> {
    /// Decides how many particles spawn, given whether the spawn timer has
    /// finished this frame; a one-shot spawner deactivates once it has spawned.
    pub fn spawn_decision(&mut self, timer_finished: bool, spawn_amount: u32, one_shot: bool) -> (n: u32)
        ensures
            n == spawn_count(timer_finished, old(self).active, spawn_amount),
            final(self).active == stays_active(timer_finished, old(self).active, one_shot),
            !old(self).active ==> !final(self).active && n == 0,
            timer_finished && old(self).active ==> n == spawn_amount,
            !timer_finished ==> n == 0 && final(self).active == old(self).active,
            !one_shot ==> final(self).active == old(self).active,
            timer_finished && one_shot ==> !final(self).active,
            final(self).max_particles == old(self).max_particles,
            final(self).timer == old(self).timer,
            final(self).previous_position == old(self).previous_position,
            final(self).attractor_arrivals@ == old(self).attractor_arrivals@,
    {
        if timer_finished && self.active {
            if one_shot {
                self.active = false;
            }
            spawn_amount
        } else {
            0
        }
    }

    /// Tracks the spawner's position for relative positioning. With relative
    /// positioning on, returns the previous position (if any) and records
    /// `position`; otherwise returns `None` and records nothing.
    pub fn track_position(&mut self, relative_positioning: Option<bool>, position: (S, S, S)) -> (origin: Option<(S, S, S)>)
        ensures
            relative_positioning == Some(true) ==> origin == old(self).previous_position
                && final(self).previous_position == Some(position),
            relative_positioning != Some(true) ==> origin is None
                && final(self).previous_position == old(self).previous_position,
            final(self).max_particles == old(self).max_particles,
            final(self).active == old(self).active,
            final(self).timer == old(self).timer,
            final(self).attractor_arrivals@ == old(self).attractor_arrivals@,
    {
        let relative = match relative_positioning {
            Some(b) => b,
            None => false,
        };
        if relative {
            let origin = self.previous_position;
            self.previous_position = Some(position);
            origin
        } else {
            None
        }
    }

    /// The start of a frame's update: clears last frame's attractor
    /// arrivals and tells whether the update goes on, that is, whether the
    /// spawner is below its particle limit and has an effect.
    pub fn begin_frame(&mut self, store_len: usize, has_effect: bool) -> (proceed: bool)
        ensures
            proceed == update_proceeds(old(self).max_particles, store_len, has_effect),
            final(self).attractor_arrivals@ == Seq::<(S, S, S)>::empty(),
            final(self).max_particles == old(self).max_particles,
            final(self).active == old(self).active,
            final(self).timer == old(self).timer,
            final(self).previous_position == old(self).previous_position,
    {
        self.attractor_arrivals.clear();
        if self.max_particles <= store_len as u32 {
            return false;
        }
        has_effect
    }

    /// The spawner decisions of a frame that goes on: ticks the spawn timer by
    /// `delta` after setting its period, decides how many particles spawn from
    /// whether the timer has finished, and tracks the spawner's position.
    pub fn advance_frame(
        &mut self,
        spawn_period: TimerDuration,
        delta: TimerDuration,
        spawn_amount: u32,
        one_shot: bool,
        relative_positioning: Option<bool>,
        position: (S, S, S),
    ) -> (plan: FramePlan<S>)
        requires
            old(self).timer.wf(),
            spawn_period.wf(),
            delta.wf(),
        ensures
            final(self).timer.wf(),
            final(self).timer.duration == spawn_period,
            final(self).timer.finished == tick_finishes(spawn_period.total(), old(self).timer.elapsed.total(), delta.total()),
            final(self).timer.elapsed.total() == elapsed_after_tick(
                spawn_period.total(),
                old(self).timer.elapsed.total(),
                delta.total(),
            ),
            plan.spawn == spawn_count(final(self).timer.finished, old(self).active, spawn_amount),
            final(self).active == stays_active(final(self).timer.finished, old(self).active, one_shot),
            !old(self).active ==> !final(self).active && plan.spawn == 0,
            !one_shot ==> final(self).active == old(self).active,
            relative_positioning == Some(true) ==> plan.shift_origin == old(self).previous_position
                && final(self).previous_position == Some(position),
            relative_positioning != Some(true) ==> plan.shift_origin is None
                && final(self).previous_position == old(self).previous_position,
            final(self).max_particles == old(self).max_particles,
            final(self).attractor_arrivals@ == old(self).attractor_arrivals@,
    {
        self.timer.set_duration(spawn_period);
        self.timer.tick(delta);
        let finished = self.timer.is_finished();
        let spawn = self.spawn_decision(finished, spawn_amount, one_shot);
        let shift_origin = self.track_position(relative_positioning, position);
        FramePlan { spawn, shift_origin }
    }
}

/// Whether a spawner is done: it despawns on completion, is no longer active
/// and has no particle left.
pub fn spawner_finished<S: Copy>(one_shot: &OneShot, state: &ParticleSpawnerState<S>, store: &ParticleStore<S>) -> (b: bool)
    ensures
        b <==> (*one_shot == OneShot::Despawn && !state.active && store@.len() == 0),
{
    match one_shot {
        OneShot::Despawn => !state.active && store.is_empty(),
        OneShot::Deactivate => false,
    }
}

/// A spawner's own copy of its effect, taken from the effect asset.
#[derive(Clone, Debug)]
pub struct ParticleEffectInstance<E>(pub Option<E>);

impl<E> Default for ParticleEffectInstance<E> {
    fn default() -> (r: Self)
        ensures
            r.0 is None,
    {
        ParticleEffectInstance(None)
    }
}

impl<E: Clone> ParticleEffectInstance<E> {
    /// Copies the effect asset into the instance when the asset is loaded;
    /// leaves the instance as it is otherwise.
    pub fn copy_from_asset(&mut self, asset: Option<&E>)
        ensures
            asset is None ==> final(self).0 == old(self).0,
            asset matches Some(a) ==> final(self).0 matches Some(c) && cloned(*a, c),
    {
        if let Some(effect) = asset {
            self.0 = Some(effect.clone());
        }
    }
}

} // verus!
