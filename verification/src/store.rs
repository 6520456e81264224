use vstd::prelude::*;
use crate::compaction::{
    compacted, swept_tail, arrivals_from, with_expiry, is_survivor, particle_of, has_reached, position_fn,
    lemma_compaction_leaves_exactly_the_survivors, lemma_one_arrival_per_reached_particle,
};
use crate::spawner::ParticleSpawnerState;

verus! {

/// One particle: the values that every column of a [`ParticleStore`] holds at one index.
#[derive(Clone, Copy, Debug, PartialEq)]
pub struct Particle<S> {
    pub position_x: S,
    pub position_y: S,
    pub position_z: S,
    pub rotation: S,
    pub scale_x: S,
    pub scale_y: S,
    pub scale_z: S,
    pub duration: S,
    pub duration_fraction: S,
    pub velocity_x: S,
    pub velocity_y: S,
    pub velocity_z: S,
    pub angular_velocity: S,
    pub color_r: S,
    pub color_g: S,
    pub color_b: S,
    pub color_a: S,
    pub frame: u32,
    pub linear_acceleration: S,
    pub linear_damp: S,
    pub angular_acceleration: S,
    pub angular_damp: S,
    pub gravity_speed: S,
    pub gravity_x: S,
    pub gravity_y: S,
    pub gravity_z: S,
    pub velocity_dir_x: S,
    pub velocity_dir_y: S,
    pub tail_position_x: S,
    pub tail_position_y: S,
    pub reached_attractor: bool,
}

/// Particle data laid out column by column: entry `i` of every column belongs to
/// particle `i`. Scalars are of type `S`; the frame index and the
/// reached-an-attractor flag have fixed types.
#[derive(Clone, Debug)]
pub struct ParticleStore<S> {
    pub position_x: Vec<S>,
    pub position_y: Vec<S>,
    pub position_z: Vec<S>,
    pub rotation: Vec<S>,
    pub scale_x: Vec<S>,
    pub scale_y: Vec<S>,
    pub scale_z: Vec<S>,
    pub duration: Vec<S>,
    pub duration_fraction: Vec<S>,
    pub velocity_x: Vec<S>,
    pub velocity_y: Vec<S>,
    pub velocity_z: Vec<S>,
    pub angular_velocity: Vec<S>,
    pub color_r: Vec<S>,
    pub color_g: Vec<S>,
    pub color_b: Vec<S>,
    pub color_a: Vec<S>,
    pub frame: Vec<u32>,
    pub linear_acceleration: Vec<S>,
    pub linear_damp: Vec<S>,
    pub angular_acceleration: Vec<S>,
    pub angular_damp: Vec<S>,
    pub gravity_speed: Vec<S>,
    pub gravity_x: Vec<S>,
    pub gravity_y: Vec<S>,
    pub gravity_z: Vec<S>,
    pub velocity_dir_x: Vec<S>,
    pub velocity_dir_y: Vec<S>,
    pub tail_position_x: Vec<S>,
    pub tail_position_y: Vec<S>,
    pub reached_attractor: Vec<bool>,
}

impl<S> ParticleStore<S> {
    /// Every column has as many entries as there are particles.
    pub open spec fn wf(&self) -> bool {
        &&& self.position_x@.len() == self.duration@.len()
        &&& self.position_y@.len() == self.duration@.len()
        &&& self.position_z@.len() == self.duration@.len()
        &&& self.rotation@.len() == self.duration@.len()
        &&& self.scale_x@.len() == self.duration@.len()
        &&& self.scale_y@.len() == self.duration@.len()
        &&& self.scale_z@.len() == self.duration@.len()
        &&& self.duration_fraction@.len() == self.duration@.len()
        &&& self.velocity_x@.len() == self.duration@.len()
        &&& self.velocity_y@.len() == self.duration@.len()
        &&& self.velocity_z@.len() == self.duration@.len()
        &&& self.angular_velocity@.len() == self.duration@.len()
        &&& self.color_r@.len() == self.duration@.len()
        &&& self.color_g@.len() == self.duration@.len()
        &&& self.color_b@.len() == self.duration@.len()
        &&& self.color_a@.len() == self.duration@.len()
        &&& self.frame@.len() == self.duration@.len()
        &&& self.linear_acceleration@.len() == self.duration@.len()
        &&& self.linear_damp@.len() == self.duration@.len()
        &&& self.angular_acceleration@.len() == self.duration@.len()
        &&& self.angular_damp@.len() == self.duration@.len()
        &&& self.gravity_speed@.len() == self.duration@.len()
        &&& self.gravity_x@.len() == self.duration@.len()
        &&& self.gravity_y@.len() == self.duration@.len()
        &&& self.gravity_z@.len() == self.duration@.len()
        &&& self.velocity_dir_x@.len() == self.duration@.len()
        &&& self.velocity_dir_y@.len() == self.duration@.len()
        &&& self.tail_position_x@.len() == self.duration@.len()
        &&& self.tail_position_y@.len() == self.duration@.len()
        &&& self.reached_attractor@.len() == self.duration@.len()
    }

    /// The particle whose values stand at index `i` of the columns.
    pub open spec fn particle_at(&self, i: int) -> Particle<S> {
        Particle {
            position_x: self.position_x@[i],
            position_y: self.position_y@[i],
            position_z: self.position_z@[i],
            rotation: self.rotation@[i],
            scale_x: self.scale_x@[i],
            scale_y: self.scale_y@[i],
            scale_z: self.scale_z@[i],
            duration: self.duration@[i],
            duration_fraction: self.duration_fraction@[i],
            velocity_x: self.velocity_x@[i],
            velocity_y: self.velocity_y@[i],
            velocity_z: self.velocity_z@[i],
            angular_velocity: self.angular_velocity@[i],
            color_r: self.color_r@[i],
            color_g: self.color_g@[i],
            color_b: self.color_b@[i],
            color_a: self.color_a@[i],
            frame: self.frame@[i],
            linear_acceleration: self.linear_acceleration@[i],
            linear_damp: self.linear_damp@[i],
            angular_acceleration: self.angular_acceleration@[i],
            angular_damp: self.angular_damp@[i],
            gravity_speed: self.gravity_speed@[i],
            gravity_x: self.gravity_x@[i],
            gravity_y: self.gravity_y@[i],
            gravity_z: self.gravity_z@[i],
            velocity_dir_x: self.velocity_dir_x@[i],
            velocity_dir_y: self.velocity_dir_y@[i],
            tail_position_x: self.tail_position_x@[i],
            tail_position_y: self.tail_position_y@[i],
            reached_attractor: self.reached_attractor@[i],
        }
    }
}

impl<S> View for ParticleStore<S> {
    type V = Seq<Particle<S>>;

    /// The particles in column order.
    open spec fn view(&self) -> Seq<Particle<S>> {
        Seq::new(self.duration@.len(), |i: int| self.particle_at(i))
    }
}

impl<S: Copy> Default for ParticleStore<S> {
    fn default() -> (store: Self)
        ensures
            store.wf(),
            store@ == Seq::<Particle<S>>::empty(),
    {
        Self::new()
    }
}

impl<S: Copy> ParticleStore<S> {
    /// An empty store.
    pub fn new() -> (store: Self)
        ensures
            store.wf(),
            store@ == Seq::<Particle<S>>::empty(),
    {
        let store = ParticleStore {
            position_x: Vec::new(),
            position_y: Vec::new(),
            position_z: Vec::new(),
            rotation: Vec::new(),
            scale_x: Vec::new(),
            scale_y: Vec::new(),
            scale_z: Vec::new(),
            duration: Vec::new(),
            duration_fraction: Vec::new(),
            velocity_x: Vec::new(),
            velocity_y: Vec::new(),
            velocity_z: Vec::new(),
            angular_velocity: Vec::new(),
            color_r: Vec::new(),
            color_g: Vec::new(),
            color_b: Vec::new(),
            color_a: Vec::new(),
            frame: Vec::new(),
            linear_acceleration: Vec::new(),
            linear_damp: Vec::new(),
            angular_acceleration: Vec::new(),
            angular_damp: Vec::new(),
            gravity_speed: Vec::new(),
            gravity_x: Vec::new(),
            gravity_y: Vec::new(),
            gravity_z: Vec::new(),
            velocity_dir_x: Vec::new(),
            velocity_dir_y: Vec::new(),
            tail_position_x: Vec::new(),
            tail_position_y: Vec::new(),
            reached_attractor: Vec::new(),
        };
        assert(store@ =~= Seq::<Particle<S>>::empty());
        store
    }

    /// The number of particles.
    pub fn len(&self) -> (n: usize)
        ensures
            n == self@.len(),
    {
        self.duration.len()
    }

    /// Whether the store holds no particle.
    pub fn is_empty(&self) -> (b: bool)
        ensures
            b <==> self@.len() == 0,
    {
        self.duration.is_empty()
    }

    /// Removes every particle.
    pub fn clear(&mut self)
        ensures
            final(self).wf(),
            final(self)@ == Seq::<Particle<S>>::empty(),
    {
        self.position_x.clear();
        self.position_y.clear();
        self.position_z.clear();
        self.rotation.clear();
        self.scale_x.clear();
        self.scale_y.clear();
        self.scale_z.clear();
        self.duration.clear();
        self.duration_fraction.clear();
        self.velocity_x.clear();
        self.velocity_y.clear();
        self.velocity_z.clear();
        self.angular_velocity.clear();
        self.color_r.clear();
        self.color_g.clear();
        self.color_b.clear();
        self.color_a.clear();
        self.frame.clear();
        self.linear_acceleration.clear();
        self.linear_damp.clear();
        self.angular_acceleration.clear();
        self.angular_damp.clear();
        self.gravity_speed.clear();
        self.gravity_x.clear();
        self.gravity_y.clear();
        self.gravity_z.clear();
        self.velocity_dir_x.clear();
        self.velocity_dir_y.clear();
        self.tail_position_x.clear();
        self.tail_position_y.clear();
        self.reached_attractor.clear();
        assert(self@ =~= Seq::<Particle<S>>::empty());
    }

    /// The particle at `index`, read from every column.
    pub fn get(&self, index: usize) -> (p: Particle<S>)
        requires
            self.wf(),
            index < self@.len(),
        ensures
            p == self@[index as int],
    {
        Particle {
            position_x: self.position_x[index],
            position_y: self.position_y[index],
            position_z: self.position_z[index],
            rotation: self.rotation[index],
            scale_x: self.scale_x[index],
            scale_y: self.scale_y[index],
            scale_z: self.scale_z[index],
            duration: self.duration[index],
            duration_fraction: self.duration_fraction[index],
            velocity_x: self.velocity_x[index],
            velocity_y: self.velocity_y[index],
            velocity_z: self.velocity_z[index],
            angular_velocity: self.angular_velocity[index],
            color_r: self.color_r[index],
            color_g: self.color_g[index],
            color_b: self.color_b[index],
            color_a: self.color_a[index],
            frame: self.frame[index],
            linear_acceleration: self.linear_acceleration[index],
            linear_damp: self.linear_damp[index],
            angular_acceleration: self.angular_acceleration[index],
            angular_damp: self.angular_damp[index],
            gravity_speed: self.gravity_speed[index],
            gravity_x: self.gravity_x[index],
            gravity_y: self.gravity_y[index],
            gravity_z: self.gravity_z[index],
            velocity_dir_x: self.velocity_dir_x[index],
            velocity_dir_y: self.velocity_dir_y[index],
            tail_position_x: self.tail_position_x[index],
            tail_position_y: self.tail_position_y[index],
            reached_attractor: self.reached_attractor[index],
        }
    }

    /// Removes the particle at `index` in every column; the last particle takes its place.
    pub fn swap_remove(&mut self, index: usize)
        requires
            old(self).wf(),
            index < old(self)@.len(),
        ensures
            final(self).wf(),
            final(self)@ == old(self)@.update(index as int, old(self)@.last()).drop_last(),
    {
        self.position_x.swap_remove(index);
        self.position_y.swap_remove(index);
        self.position_z.swap_remove(index);
        self.rotation.swap_remove(index);
        self.scale_x.swap_remove(index);
        self.scale_y.swap_remove(index);
        self.scale_z.swap_remove(index);
        self.duration.swap_remove(index);
        self.duration_fraction.swap_remove(index);
        self.velocity_x.swap_remove(index);
        self.velocity_y.swap_remove(index);
        self.velocity_z.swap_remove(index);
        self.angular_velocity.swap_remove(index);
        self.color_r.swap_remove(index);
        self.color_g.swap_remove(index);
        self.color_b.swap_remove(index);
        self.color_a.swap_remove(index);
        self.frame.swap_remove(index);
        self.linear_acceleration.swap_remove(index);
        self.linear_damp.swap_remove(index);
        self.angular_acceleration.swap_remove(index);
        self.angular_damp.swap_remove(index);
        self.gravity_speed.swap_remove(index);
        self.gravity_x.swap_remove(index);
        self.gravity_y.swap_remove(index);
        self.gravity_z.swap_remove(index);
        self.velocity_dir_x.swap_remove(index);
        self.velocity_dir_y.swap_remove(index);
        self.tail_position_x.swap_remove(index);
        self.tail_position_y.swap_remove(index);
        self.reached_attractor.swap_remove(index);
        assert(self@ =~= old(self)@.update(index as int, old(self)@.last()).drop_last());
    }
}

/// `v` is a value that `S::default()` returns: the starting value of a
/// particle's elapsed-lifetime fraction (`0.0` for `f32`).
pub open spec fn is_default_value<S: Default>(v: S) -> bool {
    call_ensures(S::default, (), v)
}

/// The particle that a spawn with these values adds: it starts at its spawn
/// position with its trail there too, on frame 0, with lifetime fraction `zero`,
/// and has not reached an attractor.
pub open spec fn spawned_particle<S>(
    position: (S, S, S),
    rotation: S,
    scale: (S, S, S),
    duration: S,
    velocity: (S, S, S),
    angular_velocity: S,
    color: (S, S, S, S),
    accelerations: (S, S, S, S),
    gravity_speed: S,
    gravity_direction: (S, S, S),
    initial_direction: (S, S),
    zero: S,
) -> Particle<S> {
    Particle {
        position_x: position.0,
        position_y: position.1,
        position_z: position.2,
        rotation: rotation,
        scale_x: scale.0,
        scale_y: scale.1,
        scale_z: scale.2,
        duration: duration,
        duration_fraction: zero,
        velocity_x: velocity.0,
        velocity_y: velocity.1,
        velocity_z: velocity.2,
        angular_velocity: angular_velocity,
        color_r: color.0,
        color_g: color.1,
        color_b: color.2,
        color_a: color.3,
        frame: 0,
        linear_acceleration: accelerations.0,
        linear_damp: accelerations.1,
        angular_acceleration: accelerations.2,
        angular_damp: accelerations.3,
        gravity_speed: gravity_speed,
        gravity_x: gravity_direction.0,
        gravity_y: gravity_direction.1,
        gravity_z: gravity_direction.2,
        velocity_dir_x: initial_direction.0,
        velocity_dir_y: initial_direction.1,
        tail_position_x: position.0,
        tail_position_y: position.1,
        reached_attractor: false,
    }
}

impl<S: Copy + Default> ParticleStore<S> {
    /// Appends a freshly spawned particle. `rotation` is the spawn transform's
    /// angle about the z axis; `accelerations` holds the linear acceleration,
    /// linear damping, angular acceleration and angular damping; and
    /// `initial_direction` is the normalized xy direction of `velocity`.
    #[allow(clippy::too_many_arguments)]
    pub fn push(
        &mut self,
        position: (S, S, S),
        rotation: S,
        scale: (S, S, S),
        duration: S,
        velocity: (S, S, S),
        angular_velocity: S,
        color: (S, S, S, S),
        accelerations: (S, S, S, S),
        gravity_speed: S,
        gravity_direction: (S, S, S),
        initial_direction: (S, S),
    )
        requires
            old(self).wf(),
            old(self)@.len() < usize::MAX,
        ensures
            final(self).wf(),
            final(self)@.len() == old(self)@.len() + 1,
            is_default_value(final(self)@.last().duration_fraction),
            final(self)@ == old(self)@.push(
                spawned_particle(
                    position,
                    rotation,
                    scale,
                    duration,
                    velocity,
                    angular_velocity,
                    color,
                    accelerations,
                    gravity_speed,
                    gravity_direction,
                    initial_direction,
                    final(self)@.last().duration_fraction,
                ),
            ),
    {
        let zero = S::default();
        self.position_x.push(position.0);
        self.position_y.push(position.1);
        self.position_z.push(position.2);
        self.rotation.push(rotation);
        self.scale_x.push(scale.0);
        self.scale_y.push(scale.1);
        self.scale_z.push(scale.2);
        self.duration.push(duration);
        self.duration_fraction.push(zero);
        self.velocity_x.push(velocity.0);
        self.velocity_y.push(velocity.1);
        self.velocity_z.push(velocity.2);
        self.angular_velocity.push(angular_velocity);
        self.color_r.push(color.0);
        self.color_g.push(color.1);
        self.color_b.push(color.2);
        self.color_a.push(color.3);
        self.frame.push(0);
        self.linear_acceleration.push(accelerations.0);
        self.linear_damp.push(accelerations.1);
        self.angular_acceleration.push(accelerations.2);
        self.angular_damp.push(accelerations.3);
        self.gravity_speed.push(gravity_speed);
        self.gravity_x.push(gravity_direction.0);
        self.gravity_y.push(gravity_direction.1);
        self.gravity_z.push(gravity_direction.2);
        self.velocity_dir_x.push(initial_direction.0);
        self.velocity_dir_y.push(initial_direction.1);
        self.tail_position_x.push(position.0);
        self.tail_position_y.push(position.1);
        self.reached_attractor.push(false);
        assert(self@ =~= old(self)@.push(
            spawned_particle(
                position,
                rotation,
                scale,
                duration,
                velocity,
                angular_velocity,
                color,
                accelerations,
                gravity_speed,
                gravity_direction,
                initial_direction,
                zero,
            ),
        ));
    }
}

impl<S: Copy> ParticleStore<S> {
    /// Removes, from the last index down, every particle that has reached an
    /// attractor or whose lifetime is over (`expired[i]` for the particle at
    /// index `i`), each by a swap removal. The positions of the particles that
    /// reached an attractor are appended to the spawner's attractor arrivals.
    pub fn remove_expired_and_reached(&mut self, state: &mut ParticleSpawnerState<S>, expired: &Vec<bool>)
        requires
            old(self).wf(),
            expired@.len() == old(self)@.len(),
        ensures
            final(self).wf(),
            final(self)@ == compacted(old(self)@, expired@),
            final(self)@.to_multiset()
                == with_expiry(old(self)@, expired@).filter(is_survivor()).map_values(particle_of()).to_multiset(),
            final(state).attractor_arrivals@ == old(state).attractor_arrivals@ + arrivals_from(old(self)@, 0),
            final(state).attractor_arrivals@.to_multiset() == old(state).attractor_arrivals@.to_multiset().add(
                old(self)@.filter(has_reached()).map_values(position_fn()).to_multiset(),
            ),
            final(state).attractor_arrivals@.len()
                == old(state).attractor_arrivals@.len() + old(self)@.filter(has_reached()).len(),
            final(state).max_particles == old(state).max_particles,
            final(state).active == old(state).active,
            final(state).timer == old(state).timer,
            final(state).previous_position == old(state).previous_position,
    {
        let ghost parts = self@;
        let ghost arrivals0 = state.attractor_arrivals@;
        let n = self.len();
        let mut index = n;
        while index > 0
            invariant
                self.wf(),
                index <= n,
                n == parts.len(),
                expired@.len() == n,
                self@ == parts.subrange(0, index as int) + swept_tail(parts, expired@, index as int),
                state.attractor_arrivals@ == arrivals0 + arrivals_from(parts, index as int),
                state.max_particles == old(state).max_particles,
                state.active == old(state).active,
                state.timer == old(state).timer,
                state.previous_position == old(state).previous_position,
            decreases index,
        {
            index -= 1;
            let ghost before = self@;
            let ghost t = swept_tail(parts, expired@, index + 1);
            assert(parts.subrange(0, index + 1) =~= parts.subrange(0, index as int).push(parts[index as int]));
            assert(before.len() == index + 1 + t.len());
            assert(index < self.reached_attractor@.len());
            assert(before[index as int] == parts[index as int]);
            assert(self.reached_attractor@[index as int] == parts[index as int].reached_attractor);
            if self.reached_attractor[index] {
                state.attractor_arrivals.push((self.position_x[index], self.position_y[index], self.position_z[index]));
                self.swap_remove(index);
            } else if expired[index] {
                self.swap_remove(index);
            }
            assert(self@ =~= parts.subrange(0, index as int) + swept_tail(parts, expired@, index as int));
            assert(state.attractor_arrivals@ =~= arrivals0 + arrivals_from(parts, index as int));
        }
        assert(self@ =~= compacted(parts, expired@));
        proof {
            lemma_compaction_leaves_exactly_the_survivors(parts, expired@);
            lemma_one_arrival_per_reached_particle(parts);
            vstd::seq_lib::lemma_multiset_commutative(arrivals0, arrivals_from(parts, 0));
        }
    }
}

/// The step between the particles sampled for the bounding box: one in every
/// thousandth of the particle count, between 1 and 10.
pub open spec fn bounds_stride_for(len: int) -> int {
    let step = len / 1000;
    if step < 1 {
        1
    } else if step > 10 {
        10
    } else {
        step
    }
}

impl<S> ParticleStore<S> {
    /// The step between the particle indices sampled for the bounding box.
    pub fn bounds_sample_stride(&self) -> (stride: usize)
        ensures
            stride == bounds_stride_for(self@.len() as int),
            1 <= stride <= 10,
    {
        let step = self.duration.len() / 1000;
        if step < 1 {
            1
        } else if step > 10 {
            10
        } else {
            step
        }
    }

    /// The number of particles updated eight at a time: the largest multiple
    /// of 8 not above the particle count. The particles from there on are
    /// updated one by one.
    pub fn simd_len(&self) -> (n: usize)
        ensures
            n % 8 == 0,
            n <= self@.len(),
            self@.len() - n < 8,
    {
        self.duration.len() / 8 * 8
    }
}

} // verus!
