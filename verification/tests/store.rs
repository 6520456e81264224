use bevy_enoki::spawner::ParticleSpawnerState;
use bevy_enoki::store::ParticleStore;

/// Pushes a particle whose scalars are all derived from `id`.
fn push_marked(store: &mut ParticleStore<f32>, id: f32) {
    store.push(
        (id, id + 0.5, id + 0.25),
        0.1,
        (1.0, 1.0, 1.0),
        2.0,
        (3.0, 4.0, 0.0),
        0.5,
        (1.0, 0.5, 0.25, 1.0),
        (0.2, 0.1, 0.3, 0.4),
        9.81,
        (0.0, -1.0, 0.0),
        (0.6, 0.8),
    );
}

fn store_of(ids: &[f32]) -> ParticleStore<f32> {
    let mut store = ParticleStore::new();
    for id in ids {
        push_marked(&mut store, *id);
    }
    store
}

#[test]
fn new_store_is_empty() {
    let store: ParticleStore<f32> = ParticleStore::default();
    assert_eq!(store.len(), 0);
    assert!(store.is_empty());
}

#[test]
fn push_records_a_fresh_particle() {
    let mut store = ParticleStore::new();
    push_marked(&mut store, 7.0);
    assert_eq!(store.len(), 1);
    assert!(!store.is_empty());
    let p = store.get(0);
    assert_eq!((p.position_x, p.position_y, p.position_z), (7.0, 7.5, 7.25));
    assert_eq!(p.rotation, 0.1);
    assert_eq!((p.scale_x, p.scale_y, p.scale_z), (1.0, 1.0, 1.0));
    assert_eq!(p.duration, 2.0);
    assert_eq!(p.duration_fraction, 0.0);
    assert_eq!((p.velocity_x, p.velocity_y, p.velocity_z), (3.0, 4.0, 0.0));
    assert_eq!(p.angular_velocity, 0.5);
    assert_eq!((p.color_r, p.color_g, p.color_b, p.color_a), (1.0, 0.5, 0.25, 1.0));
    assert_eq!(p.frame, 0);
    assert_eq!(
        (p.linear_acceleration, p.linear_damp, p.angular_acceleration, p.angular_damp),
        (0.2, 0.1, 0.3, 0.4)
    );
    assert_eq!(p.gravity_speed, 9.81);
    assert_eq!((p.gravity_x, p.gravity_y, p.gravity_z), (0.0, -1.0, 0.0));
    assert_eq!((p.velocity_dir_x, p.velocity_dir_y), (0.6, 0.8));
    assert_eq!((p.tail_position_x, p.tail_position_y), (7.0, 7.5));
    assert!(!p.reached_attractor);
}

#[test]
fn every_column_grows_with_push() {
    let store = store_of(&[1.0, 2.0, 3.0]);
    assert_eq!(store.position_x.len(), 3);
    assert_eq!(store.frame.len(), 3);
    assert_eq!(store.reached_attractor.len(), 3);
    assert_eq!(store.tail_position_y.len(), 3);
}

#[test]
fn swap_remove_moves_the_last_particle_in() {
    let mut store = store_of(&[0.0, 1.0, 2.0, 3.0]);
    store.swap_remove(1);
    assert_eq!(store.len(), 3);
    assert_eq!(store.position_x, vec![0.0, 3.0, 2.0]);
    assert_eq!(store.position_y, vec![0.5, 3.5, 2.5]);
    assert_eq!(store.reached_attractor.len(), 3);
}

#[test]
fn swap_remove_of_the_last_particle_just_drops_it() {
    let mut store = store_of(&[0.0, 1.0, 2.0]);
    store.swap_remove(2);
    assert_eq!(store.position_x, vec![0.0, 1.0]);
}

#[test]
fn clear_empties_every_column() {
    let mut store = store_of(&[0.0, 1.0]);
    store.clear();
    assert!(store.is_empty());
    assert!(store.position_x.is_empty());
    assert!(store.frame.is_empty());
    assert!(store.reached_attractor.is_empty());
}

#[test]
fn compaction_sweeps_from_the_back_with_swap_removal() {
    let mut store = store_of(&[0.0, 1.0, 2.0, 3.0, 4.0]);
    store.reached_attractor[1] = true;
    store.reached_attractor[4] = true;
    let expired = vec![false, false, true, false, false];
    let mut state: ParticleSpawnerState<f32> = ParticleSpawnerState::default();
    store.remove_expired_and_reached(&mut state, &expired);
    assert_eq!(store.position_x, vec![0.0, 3.0]);
    assert_eq!(store.len(), 2);
    assert_eq!(state.attractor_arrivals, vec![(4.0, 4.5, 4.25), (1.0, 1.5, 1.25)]);
    assert!(state.active);
    assert_eq!(state.max_particles, u32::MAX);
}

#[test]
fn compaction_keeps_exactly_the_survivors() {
    let ids: Vec<f32> = (0..12).map(|i| i as f32).collect();
    let mut store = store_of(&ids);
    let expired: Vec<bool> = (0..12).map(|i| i % 3 == 0).collect();
    for i in [2usize, 5, 7] {
        store.reached_attractor[i] = true;
    }
    let mut state: ParticleSpawnerState<f32> = ParticleSpawnerState::default();
    store.remove_expired_and_reached(&mut state, &expired);
    let mut left = store.position_x.clone();
    left.sort_by(|a, b| a.partial_cmp(b).unwrap());
    assert_eq!(left, vec![1.0, 4.0, 8.0, 10.0, 11.0]);
    assert_eq!(state.attractor_arrivals.len(), 3);
    assert_eq!(state.attractor_arrivals[0].0, 7.0);
    assert_eq!(state.attractor_arrivals[2].0, 2.0);
}

#[test]
fn compaction_of_an_empty_store_does_nothing() {
    let mut store: ParticleStore<f32> = ParticleStore::new();
    let mut state: ParticleSpawnerState<f32> = ParticleSpawnerState::default();
    store.remove_expired_and_reached(&mut state, &Vec::new());
    assert!(store.is_empty());
    assert!(state.attractor_arrivals.is_empty());
}

#[test]
fn compaction_appends_to_earlier_arrivals() {
    let mut store = store_of(&[5.0]);
    store.reached_attractor[0] = true;
    let mut state: ParticleSpawnerState<f32> = ParticleSpawnerState::default();
    state.attractor_arrivals.push((9.0, 9.0, 9.0));
    store.remove_expired_and_reached(&mut state, &vec![true]);
    assert!(store.is_empty());
    assert_eq!(state.attractor_arrivals, vec![(9.0, 9.0, 9.0), (5.0, 5.5, 5.25)]);
}

#[test]
fn bounds_stride_is_a_thousandth_clamped_to_one_and_ten() {
    let mut store: ParticleStore<f32> = ParticleStore::new();
    assert_eq!(store.bounds_sample_stride(), 1);
    for i in 0..2500 {
        push_marked(&mut store, i as f32);
    }
    assert_eq!(store.bounds_sample_stride(), 2);
    for i in 0..20000 {
        push_marked(&mut store, i as f32);
    }
    assert_eq!(store.bounds_sample_stride(), 10);
    let small = store_of(&[1.0; 999]);
    assert_eq!(small.bounds_sample_stride(), 1);
}

#[test]
fn simd_len_is_the_largest_multiple_of_eight() {
    assert_eq!(store_of(&[]).simd_len(), 0);
    assert_eq!(store_of(&[1.0; 7]).simd_len(), 0);
    assert_eq!(store_of(&[1.0; 8]).simd_len(), 8);
    assert_eq!(store_of(&[1.0; 21]).simd_len(), 16);
}

#[test]
fn clear_works_on_uneven_columns() {
    let mut store: ParticleStore<f32> = ParticleStore::new();
    store.position_x.push(1.0);
    store.position_y.push(2.0);
    store.reached_attractor.push(false);
    store.clear();
    assert!(store.is_empty());
    assert!(store.position_x.is_empty());
    assert!(store.position_y.is_empty());
    assert!(store.reached_attractor.is_empty());
}
