# bevy_enoki

Bookkeeping for a 2D particle system built on Bevy, with its contracts proved
by Verus.

- `src/` is the verified library:
  - `store`: the column store of particles (`ParticleStore<S>`), generic over
    the scalar type, with push, swap removal, clearing, and the compaction that
    drops expired particles and those that reached an attractor;
  - `compaction`: what a compaction leaves and records, and its laws;
  - `timer`: the repeating spawn timer held as plain values, ticked through
    `bevy_time::Timer`;
  - `spawner`: the spawner state and its per-frame decisions (particle limit,
    spawn timer, one-shot spawners, relative positioning);
  - `extract`: the per-entity instance ranges of a frame and the queueing of
    visible spawners;
  - `materials`: the material assets copied into the render world;
  - `pipeline`: the instance vertex layout and the quad's indices.
- `app/` holds the Bevy systems, the floating-point particle physics and the
  render plugin, which call the library.
- `tests/` exercises the library on concrete values.
