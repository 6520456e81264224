use vstd::prelude::*;
use crate::store::Particle;

verus! {

/// Whether the particle at index `i` leaves the store in a compaction: it has
/// reached an attractor, or its lifetime is over (`expired[i]`).
pub open spec fn leaves<S>(parts: Seq<Particle<S>>, expired: Seq<bool>, i: int) -> bool {
    parts[i].reached_attractor || expired[i]
}

/// The particles that remain at indices `i..` after the compaction sweep has
/// handled every index from the last one down to `i`. A kept particle stays in
/// front of those already handled; removing one moves the last of those into
/// its place (a swap removal).
pub open spec fn swept_tail<S>(parts: Seq<Particle<S>>, expired: Seq<bool>, i: int) -> Seq<Particle<S>>
    decreases parts.len() - i,
{
    if i < 0 || i >= parts.len() {
        Seq::empty()
    } else {
        let t = swept_tail(parts, expired, i + 1);
        if leaves(parts, expired, i) {
            if t.len() == 0 {
                t
            } else {
                seq![t.last()] + t.drop_last()
            }
        } else {
            seq![parts[i]] + t
        }
    }
}

/// The particles after a compaction sweep of the whole store.
pub open spec fn compacted<S>(parts: Seq<Particle<S>>, expired: Seq<bool>) -> Seq<Particle<S>> {
    swept_tail(parts, expired, 0)
}

/// The position of a particle.
pub open spec fn position_of<S>(p: Particle<S>) -> (S, S, S) {
    (p.position_x, p.position_y, p.position_z)
}

/// The positions of the particles at indices `i..` that reached an attractor,
/// from the highest index down: the order in which the sweep records them.
pub open spec fn arrivals_from<S>(parts: Seq<Particle<S>>, i: int) -> Seq<(S, S, S)>
    decreases parts.len() - i,
{
    if i < 0 || i >= parts.len() {
        Seq::empty()
    } else {
        let a = arrivals_from(parts, i + 1);
        if parts[i].reached_attractor {
            a.push(position_of(parts[i]))
        } else {
            a
        }
    }
}

/// The particles at indices `i..` that stay, in index order.
pub open spec fn kept_from<S>(parts: Seq<Particle<S>>, expired: Seq<bool>, i: int) -> Seq<Particle<S>>
    decreases parts.len() - i,
{
    if i < 0 || i >= parts.len() {
        Seq::empty()
    } else {
        let k = kept_from(parts, expired, i + 1);
        if leaves(parts, expired, i) {
            k
        } else {
            seq![parts[i]] + k
        }
    }
}

proof fn lemma_swept_tail_permutes_kept<S>(parts: Seq<Particle<S>>, expired: Seq<bool>, i: int)
    requires
        0 <= i <= parts.len(),
    ensures
        swept_tail(parts, expired, i).to_multiset() == kept_from(parts, expired, i).to_multiset(),
    decreases parts.len() - i,
{
    broadcast use vstd::seq_lib::group_to_multiset_ensures;

    if i < parts.len() {
        lemma_swept_tail_permutes_kept(parts, expired, i + 1);
        let t = swept_tail(parts, expired, i + 1);
        let k = kept_from(parts, expired, i + 1);
        if leaves(parts, expired, i) {
            if t.len() != 0 {
                assert(t =~= t.drop_last() + seq![t.last()]);
                vstd::seq_lib::lemma_seq_union_to_multiset_commutative(seq![t.last()], t.drop_last());
            }
        } else {
            vstd::seq_lib::lemma_seq_union_to_multiset_commutative(seq![parts[i]], t);
            vstd::seq_lib::lemma_seq_union_to_multiset_commutative(seq![parts[i]], k);
            vstd::seq_lib::lemma_multiset_commutative(t, seq![parts[i]]);
            vstd::seq_lib::lemma_multiset_commutative(k, seq![parts[i]]);
        }
    }
}

/// A compaction keeps exactly the particles that have neither reached an
/// attractor nor expired, each as often as before; only their order may change.
pub proof fn lemma_compaction_keeps_exactly_the_survivors<S>(parts: Seq<Particle<S>>, expired: Seq<bool>)
    requires
        expired.len() == parts.len(),
    ensures
        compacted(parts, expired).to_multiset() == kept_from(parts, expired, 0).to_multiset(),
        compacted(parts, expired).len() == kept_from(parts, expired, 0).len(),
        forall|p: Particle<S>| compacted(parts, expired).contains(p) <==> kept_from(parts, expired, 0).contains(p),
{
    broadcast use vstd::seq_lib::group_to_multiset_ensures;

    lemma_swept_tail_permutes_kept(parts, expired, 0);
    let c = compacted(parts, expired);
    let k = kept_from(parts, expired, 0);
    assert(c.to_multiset().len() == k.to_multiset().len());
    assert forall|p: Particle<S>| c.contains(p) <==> k.contains(p) by {
        assert(c.to_multiset().count(p) == k.to_multiset().count(p));
    }
}

/// Some particle at index `i` or later reached an attractor at position `p`.
pub open spec fn reached_at_or_after<S>(parts: Seq<Particle<S>>, i: int, p: (S, S, S)) -> bool {
    exists|j: int| #![trigger parts[j]] i <= j < parts.len() && parts[j].reached_attractor && position_of(parts[j]) == p
}

/// The attractor arrivals that a compaction records are the positions of
/// exactly the particles that reached an attractor.
pub proof fn lemma_arrivals_are_the_reached<S>(parts: Seq<Particle<S>>, i: int)
    requires
        0 <= i <= parts.len(),
    ensures
        forall|k: int| 0 <= k < arrivals_from(parts, i).len() ==>
            reached_at_or_after(parts, i, #[trigger] arrivals_from(parts, i)[k]),
        forall|j: int| i <= j < parts.len() && #[trigger] parts[j].reached_attractor ==>
            arrivals_from(parts, i).contains(position_of(parts[j])),
    decreases parts.len() - i,
{
    if i < parts.len() {
        lemma_arrivals_are_the_reached(parts, i + 1);
        let a = arrivals_from(parts, i + 1);
        let b = arrivals_from(parts, i);
        assert forall|k: int| 0 <= k < b.len() implies reached_at_or_after(parts, i, #[trigger] b[k]) by {
            if k < a.len() {
                assert(b[k] == a[k]);
                assert(reached_at_or_after(parts, i + 1, a[k]));
                let j = choose|j: int| #![trigger parts[j]] i + 1 <= j < parts.len() && parts[j].reached_attractor
                    && position_of(parts[j]) == a[k];
                assert(i <= j < parts.len() && parts[j].reached_attractor && position_of(parts[j]) == b[k]);
            } else {
                assert(parts[i].reached_attractor && b[k] == position_of(parts[i]));
            }
        }
        assert forall|j: int| i <= j < parts.len() && #[trigger] parts[j].reached_attractor implies
            b.contains(position_of(parts[j])) by {
            if j == i {
                assert(b[b.len() - 1] == position_of(parts[i]));
            } else {
                let k = choose|k: int| 0 <= k < a.len() && a[k] == position_of(parts[j]);
                assert(b[k] == a[k]);
            }
        }
    } else {
        assert(arrivals_from(parts, i).len() == 0);
    }
}

/// Each particle paired with whether its lifetime is over.
pub open spec fn with_expiry<S>(parts: Seq<Particle<S>>, expired: Seq<bool>) -> Seq<(Particle<S>, bool)> {
    Seq::new(parts.len(), |i: int| (parts[i], expired[i]))
}

/// A particle survives when it has not reached an attractor and its lifetime is not over.
pub open spec fn is_survivor<S>() -> spec_fn((Particle<S>, bool)) -> bool {
    |e: (Particle<S>, bool)| !e.0.reached_attractor && !e.1
}

/// The particle of a particle paired with its expiry flag.
pub open spec fn particle_of<S>() -> spec_fn((Particle<S>, bool)) -> Particle<S> {
    |e: (Particle<S>, bool)| e.0
}

/// Whether a particle has reached an attractor.
pub open spec fn has_reached<S>() -> spec_fn(Particle<S>) -> bool {
    |p: Particle<S>| p.reached_attractor
}

/// The position of a particle, as a function.
pub open spec fn position_fn<S>() -> spec_fn(Particle<S>) -> (S, S, S) {
    |p: Particle<S>| position_of(p)
}

proof fn lemma_singleton_filter<A>(x: A, pred: spec_fn(A) -> bool)
    ensures
        seq![x].filter(pred) == (if pred(x) { seq![x] } else { Seq::<A>::empty() }),
{
    reveal_with_fuel(Seq::filter, 2);
    assert(seq![x].drop_last() =~= Seq::<A>::empty());
    if pred(x) {
        assert(Seq::<A>::empty().push(x) =~= seq![x]);
    }
}

proof fn lemma_map_values_add<A, B>(a: Seq<A>, b: Seq<A>, f: spec_fn(A) -> B)
    ensures
        (a + b).map_values(f) == a.map_values(f) + b.map_values(f),
{
    assert((a + b).map_values(f) =~= a.map_values(f) + b.map_values(f));
}

proof fn lemma_kept_are_the_survivors<S>(parts: Seq<Particle<S>>, expired: Seq<bool>, i: int)
    requires
        expired.len() == parts.len(),
        0 <= i <= parts.len(),
    ensures
        kept_from(parts, expired, i)
            == with_expiry(parts, expired).skip(i).filter(is_survivor()).map_values(particle_of()),
    decreases parts.len() - i,
{
    let z = with_expiry(parts, expired);
    if i == parts.len() {
        assert(z.skip(i) =~= Seq::<(Particle<S>, bool)>::empty());
        reveal_with_fuel(Seq::filter, 1);
        assert(z.skip(i).filter(is_survivor()).map_values(particle_of()) =~= Seq::<Particle<S>>::empty());
    } else {
        lemma_kept_are_the_survivors(parts, expired, i + 1);
        let x = z[i];
        assert(z.skip(i) =~= seq![x] + z.skip(i + 1));
        Seq::filter_distributes_over_add(seq![x], z.skip(i + 1), is_survivor());
        lemma_singleton_filter(x, is_survivor());
        lemma_map_values_add(seq![x].filter(is_survivor()), z.skip(i + 1).filter(is_survivor()), particle_of());
        if is_survivor::<S>()(x) {
            assert(seq![x].map_values(particle_of()) =~= seq![parts[i]]);
        } else {
            assert(Seq::<(Particle<S>, bool)>::empty().map_values(particle_of()) =~= Seq::<Particle<S>>::empty());
            assert(Seq::<Particle<S>>::empty() + z.skip(i + 1).filter(is_survivor()).map_values(particle_of())
                =~= z.skip(i + 1).filter(is_survivor()).map_values(particle_of()));
        }
    }
}

/// A compaction leaves exactly the particles that neither reached an attractor
/// nor have an expired lifetime, each as often as before; only their order may
/// change.
pub proof fn lemma_compaction_leaves_exactly_the_survivors<S>(parts: Seq<Particle<S>>, expired: Seq<bool>)
    requires
        expired.len() == parts.len(),
    ensures
        compacted(parts, expired).to_multiset()
            == with_expiry(parts, expired).filter(is_survivor()).map_values(particle_of()).to_multiset(),
{
    lemma_compaction_keeps_exactly_the_survivors(parts, expired);
    lemma_kept_are_the_survivors(parts, expired, 0);
    assert(with_expiry(parts, expired).skip(0) =~= with_expiry(parts, expired));
}

proof fn lemma_arrivals_count_from<S>(parts: Seq<Particle<S>>, i: int)
    requires
        0 <= i <= parts.len(),
    ensures
        arrivals_from(parts, i).to_multiset()
            == parts.skip(i).filter(has_reached()).map_values(position_fn()).to_multiset(),
    decreases parts.len() - i,
{
    broadcast use vstd::seq_lib::group_to_multiset_ensures;

    if i == parts.len() {
        assert(parts.skip(i) =~= Seq::<Particle<S>>::empty());
        reveal_with_fuel(Seq::filter, 1);
        assert(parts.skip(i).filter(has_reached()).map_values(position_fn()) =~= Seq::<(S, S, S)>::empty());
        assert(arrivals_from(parts, i) =~= Seq::<(S, S, S)>::empty());
    } else {
        lemma_arrivals_count_from(parts, i + 1);
        let x = parts[i];
        let rest = parts.skip(i + 1).filter(has_reached()).map_values(position_fn());
        assert(parts.skip(i) =~= seq![x] + parts.skip(i + 1));
        Seq::filter_distributes_over_add(seq![x], parts.skip(i + 1), has_reached());
        lemma_singleton_filter(x, has_reached());
        lemma_map_values_add(seq![x].filter(has_reached()), parts.skip(i + 1).filter(has_reached()), position_fn());
        if x.reached_attractor {
            assert(seq![x].map_values(position_fn()) =~= seq![position_of(x)]);
            vstd::seq_lib::lemma_multiset_commutative(seq![position_of(x)], rest);
            vstd::seq_lib::lemma_multiset_commutative(arrivals_from(parts, i + 1), seq![position_of(x)]);
            assert(arrivals_from(parts, i) == arrivals_from(parts, i + 1).push(position_of(x)));
        } else {
            assert(Seq::<Particle<S>>::empty().map_values(position_fn()) =~= Seq::<(S, S, S)>::empty());
            assert(Seq::<(S, S, S)>::empty() + rest =~= rest);
        }
    }
}

/// A compaction records one arrival for each particle that reached an
/// attractor, at that particle's position, and no other arrival.
pub proof fn lemma_one_arrival_per_reached_particle<S>(parts: Seq<Particle<S>>)
    ensures
        arrivals_from(parts, 0).to_multiset()
            == parts.filter(has_reached()).map_values(position_fn()).to_multiset(),
        arrivals_from(parts, 0).len() == parts.filter(has_reached()).len(),
{
    broadcast use vstd::seq_lib::group_to_multiset_ensures;

    lemma_arrivals_count_from(parts, 0);
    assert(parts.skip(0) =~= parts);
    assert(arrivals_from(parts, 0).to_multiset().len() == parts.filter(has_reached()).map_values(position_fn()).to_multiset().len());
}

} // verus!
