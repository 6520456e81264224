use std::time::Duration;

use bevy_enoki::spawner::{
    spawner_finished, FramePlan, OneShot, ParticleEffectInstance, ParticleSpawnerState,
};
use bevy_enoki::store::ParticleStore;
use bevy_enoki::timer::{SpawnTimer, TimerDuration};

fn td(d: Duration) -> TimerDuration {
    TimerDuration { secs: d.as_secs(), nanos: d.subsec_nanos() }
}

fn plan(
    state: &mut ParticleSpawnerState<f32>,
    store_len: usize,
    period: Duration,
    delta: Duration,
    one_shot: bool,
) -> Option<FramePlan<f32>> {
    if state.begin_frame(store_len, true) {
        Some(state.advance_frame(td(period), td(delta), 4, one_shot, None, (0.0, 0.0, 0.0)))
    } else {
        None
    }
}

#[test]
fn default_state_is_active_and_unlimited() {
    let state: ParticleSpawnerState<f32> = ParticleSpawnerState::default();
    assert!(state.active);
    assert_eq!(state.max_particles, u32::MAX);
    assert_eq!(state.previous_position, None);
    assert!(state.attractor_arrivals.is_empty());
    assert!(!state.timer.is_finished());
    assert_eq!(state.timer.duration, td(Duration::ZERO));
    assert_eq!(state.timer.elapsed, td(Duration::ZERO));
}

#[test]
fn one_shot_default_deactivates() {
    assert_eq!(OneShot::default(), OneShot::Deactivate);
}

#[test]
fn spawns_when_the_timer_finishes() {
    let mut state: ParticleSpawnerState<f32> = ParticleSpawnerState::default();
    let period = Duration::from_millis(100);
    let first = plan(&mut state, 0, period, Duration::from_millis(60), false).unwrap();
    assert_eq!(first.spawn, 0);
    let second = plan(&mut state, 0, period, Duration::from_millis(60), false).unwrap();
    assert_eq!(second.spawn, 4);
    assert_eq!(state.timer.duration, td(period));
    assert_eq!(state.timer.elapsed, td(Duration::from_millis(20)));
    assert!(state.active);
}

#[test]
fn a_zero_period_spawns_every_frame() {
    let mut state: ParticleSpawnerState<f32> = ParticleSpawnerState::default();
    for _ in 0..3 {
        let p = plan(&mut state, 0, Duration::ZERO, Duration::from_millis(16), false).unwrap();
        assert_eq!(p.spawn, 4);
    }
}

#[test]
fn one_shot_spawner_spawns_once() {
    let mut state: ParticleSpawnerState<f32> = ParticleSpawnerState::default();
    let p = plan(&mut state, 0, Duration::ZERO, Duration::from_millis(16), true).unwrap();
    assert_eq!(p.spawn, 4);
    assert!(!state.active);
    let q = plan(&mut state, 4, Duration::ZERO, Duration::from_millis(16), true).unwrap();
    assert_eq!(q.spawn, 0);
}

#[test]
fn no_update_at_the_particle_limit() {
    let mut state: ParticleSpawnerState<f32> = ParticleSpawnerState::default();
    state.max_particles = 5;
    state.attractor_arrivals.push((1.0, 2.0, 3.0));
    assert_eq!(plan(&mut state, 5, Duration::ZERO, Duration::from_millis(16), false), None);
    assert!(state.attractor_arrivals.is_empty());
    assert!(plan(&mut state, 4, Duration::ZERO, Duration::from_millis(16), false).is_some());
}

#[test]
fn particle_limit_compares_the_count_cut_to_32_bits() {
    let mut state: ParticleSpawnerState<f32> = ParticleSpawnerState::default();
    state.max_particles = 5;
    let huge = (1usize << 32) + 1;
    assert!(plan(&mut state, huge, Duration::ZERO, Duration::from_millis(16), false).is_some());
}

#[test]
fn no_update_without_an_effect() {
    let mut state: ParticleSpawnerState<f32> = ParticleSpawnerState::default();
    state.attractor_arrivals.push((1.0, 1.0, 1.0));
    assert!(!state.begin_frame(0, false));
    assert!(state.attractor_arrivals.is_empty());
    assert!(state.active);
}

#[test]
fn relative_positioning_shifts_by_the_spawner_movement() {
    let mut state: ParticleSpawnerState<f32> = ParticleSpawnerState::default();
    let period = Duration::from_secs(10);
    let delta = Duration::from_millis(16);
    let a = state.advance_frame(td(period), td(delta), 1, false, Some(true), (1.0, 2.0, 3.0));
    assert_eq!(a.shift_origin, None);
    assert_eq!(state.previous_position, Some((1.0, 2.0, 3.0)));
    let b = state.advance_frame(td(period), td(delta), 1, false, Some(true), (4.0, 5.0, 6.0));
    assert_eq!(b.shift_origin, Some((1.0, 2.0, 3.0)));
    assert_eq!(state.previous_position, Some((4.0, 5.0, 6.0)));
    let c = state.advance_frame(td(period), td(delta), 1, false, Some(false), (7.0, 7.0, 7.0));
    assert_eq!(c.shift_origin, None);
    assert_eq!(state.previous_position, Some((4.0, 5.0, 6.0)));
    let d = state.advance_frame(td(period), td(delta), 1, false, None, (7.0, 7.0, 7.0));
    assert_eq!(d.shift_origin, None);
}

#[test]
fn spawn_decision_covers_every_case() {
    let mut state: ParticleSpawnerState<f32> = ParticleSpawnerState::default();
    assert_eq!(state.spawn_decision(false, 3, true), 0);
    assert!(state.active);
    assert_eq!(state.spawn_decision(true, 3, false), 3);
    assert!(state.active);
    assert_eq!(state.spawn_decision(true, 3, true), 3);
    assert!(!state.active);
    assert_eq!(state.spawn_decision(true, 3, false), 0);
}

#[test]
fn finished_spawner_despawns_only_when_done() {
    let mut state: ParticleSpawnerState<f32> = ParticleSpawnerState::default();
    let store: ParticleStore<f32> = ParticleStore::new();
    assert!(!spawner_finished(&OneShot::Despawn, &state, &store));
    state.active = false;
    assert!(spawner_finished(&OneShot::Despawn, &state, &store));
    assert!(!spawner_finished(&OneShot::Deactivate, &state, &store));
    let mut full: ParticleStore<f32> = ParticleStore::new();
    full.push(
        (0.0, 0.0, 0.0),
        0.0,
        (1.0, 1.0, 1.0),
        1.0,
        (0.0, 0.0, 0.0),
        0.0,
        (1.0, 1.0, 1.0, 1.0),
        (0.0, 0.0, 0.0, 0.0),
        0.0,
        (0.0, 0.0, 0.0),
        (0.0, 0.0),
    );
    assert!(!spawner_finished(&OneShot::Despawn, &state, &full));
}

#[test]
fn effect_instance_copies_a_loaded_asset() {
    let mut instance: ParticleEffectInstance<String> = ParticleEffectInstance::default();
    assert_eq!(instance.0, None);
    instance.copy_from_asset(None);
    assert_eq!(instance.0, None);
    let asset = String::from("sparks");
    instance.copy_from_asset(Some(&asset));
    assert_eq!(instance.0, Some(String::from("sparks")));
    instance.copy_from_asset(None);
    assert_eq!(instance.0, Some(String::from("sparks")));
}

#[test]
fn timer_wraps_around_when_it_finishes() {
    let mut timer = SpawnTimer::new(td(Duration::from_millis(300)));
    timer.tick(td(Duration::from_millis(200)));
    assert!(!timer.is_finished());
    assert_eq!(timer.elapsed, td(Duration::from_millis(200)));
    timer.tick(td(Duration::from_millis(750)));
    assert!(timer.is_finished());
    assert_eq!(timer.elapsed, td(Duration::from_millis(50)));
    assert_eq!(timer.duration, td(Duration::from_millis(300)));
}

#[test]
fn timer_of_zero_length_finishes_every_tick() {
    let mut timer = SpawnTimer::new(TimerDuration::zero());
    timer.tick(td(Duration::from_nanos(1_500_000_123)));
    assert!(timer.is_finished());
    assert_eq!(timer.elapsed, TimerDuration::zero());
}

#[test]
fn timer_elapsed_time_saturates() {
    let mut timer = SpawnTimer::new(td(Duration::MAX));
    timer.tick(td(Duration::from_secs(u64::MAX - 1)));
    timer.tick(td(Duration::from_secs(5)));
    assert!(timer.is_finished());
    assert_eq!(timer.elapsed, TimerDuration::zero());
}

#[test]
fn timer_set_duration_keeps_elapsed_time() {
    let mut timer = SpawnTimer::new(td(Duration::from_secs(1)));
    timer.tick(td(Duration::from_millis(400)));
    timer.set_duration(td(Duration::from_millis(500)));
    assert_eq!(timer.elapsed, td(Duration::from_millis(400)));
    timer.tick(td(Duration::from_millis(100)));
    assert!(timer.is_finished());
    assert_eq!(timer.elapsed, TimerDuration::zero());
}
