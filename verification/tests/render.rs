use bevy_ecs::entity::Entity;
use bevy_enoki::extract::{ExtracedParticleSpawner, ParticleInstanceBatch, ParticleTag};
use bevy_enoki::materials::{ExtractedParticleMaterials, MaterialEvent, MaterialId};
use bevy_enoki::pipeline::{instance_attributes, quad_indices, ATTRIBUTE_SIZE, INSTANCE_STRIDE};

fn entity(index: u32) -> u64 {
    Entity::from_raw_u32(index).unwrap().to_bits()
}

#[test]
fn recorded_batches_are_found_again() {
    let mut spawners = ExtracedParticleSpawner::default();
    assert!(!spawners.has_batch(entity(1)));
    spawners.record_batch(entity(1), 0, 5);
    spawners.record_batch(entity(2), 5, 12);
    assert!(spawners.has_batch(entity(1)));
    assert!(spawners.has_batch(entity(2)));
    assert!(!spawners.has_batch(entity(3)));
    let mut batches = spawners.instance_batches();
    batches.sort_by_key(|(e, _)| *e);
    let mut expected = vec![
        (entity(1), ParticleInstanceBatch { range: 0..5 }),
        (entity(2), ParticleInstanceBatch { range: 5..12 }),
    ];
    expected.sort_by_key(|(e, _)| *e);
    assert_eq!(batches, expected);
}

#[test]
fn a_later_batch_replaces_an_earlier_one() {
    let mut spawners = ExtracedParticleSpawner::default();
    spawners.record_batch(entity(4), 0, 3);
    spawners.record_batch(entity(4), 3, 9);
    let batches = spawners.instance_batches();
    assert_eq!(batches, vec![(entity(4), ParticleInstanceBatch { range: 3..9 })]);
}

#[test]
fn empty_batches_get_no_component() {
    let mut spawners = ExtracedParticleSpawner::default();
    spawners.record_batch(entity(1), 4, 4);
    spawners.record_batch(entity(2), 4, 6);
    assert!(spawners.has_batch(entity(1)));
    assert_eq!(spawners.instance_batches(), vec![(entity(2), ParticleInstanceBatch { range: 4..6 })]);
}

#[test]
fn batch_bounds_are_cut_to_32_bits() {
    let mut spawners = ExtracedParticleSpawner::default();
    spawners.record_batch(entity(1), (1usize << 32) + 2, (1usize << 32) + 7);
    assert_eq!(spawners.instance_batches(), vec![(entity(1), ParticleInstanceBatch { range: 2..7 })]);
}

#[test]
fn clear_forgets_every_batch() {
    let mut spawners = ExtracedParticleSpawner::default();
    spawners.record_batch(entity(1), 0, 5);
    spawners.clear();
    assert!(!spawners.has_batch(entity(1)));
    assert!(spawners.instance_batches().is_empty());
}

#[test]
fn queueing_skips_unbatched_entities_and_stops_without_depth() {
    let mut spawners = ExtracedParticleSpawner::default();
    spawners.record_batch(entity(1), 0, 5);
    spawners.record_batch(entity(3), 5, 9);
    spawners.record_batch(entity(4), 9, 10);
    let visible = vec![(entity(1), Some(0.5f32)), (entity(2), None), (entity(3), Some(1.5))];
    assert_eq!(spawners.queue_visible(&visible), (vec![(0, 0.5), (2, 1.5)], true));
    let stopped = vec![(entity(1), Some(0.5f32)), (entity(4), None), (entity(3), Some(1.5))];
    assert_eq!(spawners.queue_visible(&stopped), (vec![(0, 0.5)], false));
}

#[test]
fn particle_tag_default() {
    assert_eq!(ParticleTag::default(), ParticleTag);
}

#[test]
fn materials_follow_asset_events() {
    let a = MaterialId::Index(1);
    let b = MaterialId::Uuid(7);
    let mut materials: ExtractedParticleMaterials<&str> = ExtractedParticleMaterials::default();
    materials.apply_event(MaterialEvent::Added(a), Some("red"));
    materials.apply_event(MaterialEvent::Added(b), Some("blue"));
    materials.apply_event(MaterialEvent::Modified(a), Some("green"));
    materials.apply_event(MaterialEvent::Added(b), None);
    assert_eq!(materials.materials(), &vec![(a, "red"), (b, "blue"), (a, "green")]);
    materials.apply_event(MaterialEvent::Unused(b), None);
    materials.apply_event(MaterialEvent::LoadedWithDependencies(b), Some("x"));
    assert_eq!(materials.materials().len(), 3);
    materials.apply_event(MaterialEvent::Removed(a), None);
    assert_eq!(materials.materials(), &vec![(b, "blue")]);
    materials.apply_event(MaterialEvent::Removed(b), None);
    assert!(materials.materials().is_empty());
}

#[test]
fn removing_an_unknown_material_keeps_everything() {
    let mut materials: ExtractedParticleMaterials<u8> = ExtractedParticleMaterials::default();
    materials.apply_event(MaterialEvent::Added(MaterialId::Index(1)), Some(1));
    materials.apply_event(MaterialEvent::Added(MaterialId::Index(2)), Some(2));
    materials.remove_id(MaterialId::Uuid(1));
    assert_eq!(materials.materials(), &vec![(MaterialId::Index(1), 1), (MaterialId::Index(2), 2)]);
}

#[test]
fn instance_attributes_tile_the_instance() {
    let attrs = instance_attributes();
    assert_eq!(attrs.len(), 5);
    for (k, attr) in attrs.iter().enumerate() {
        assert_eq!(attr.offset, 16 * k as u64);
        assert_eq!(attr.shader_location, k as u32);
    }
    assert_eq!(attrs[4].offset + ATTRIBUTE_SIZE, INSTANCE_STRIDE);
    assert_eq!(INSTANCE_STRIDE, 80);
}

#[test]
fn quad_is_two_triangles() {
    assert_eq!(quad_indices(), vec![2, 0, 1, 1, 3, 2]);
}
