//! One frame of the obstacle game: obstacles hit by the player's object leave the scene.

use vstd::prelude::*;
use crate::obj_model::intersects;
use crate::scene_object::SceneObject;

verus! {

/// The obstacles of `s` that the object with root `main` does not hit, in order.
pub open spec fn survivors(main: SceneObject, s: Seq<SceneObject>) -> Seq<SceneObject>
    decreases s.len(),
{
    if s.len() == 0 {
        Seq::empty()
    } else {
        let rest = survivors(main, s.subrange(0, s.len() - 1));
        if intersects(main.root(), s[s.len() - 1].root()) {
            rest
        } else {
            rest.push(s[s.len() - 1])
        }
    }
}

/// The number of obstacles of `s` that the object `main` hits.
pub open spec fn hit_count(main: SceneObject, s: Seq<SceneObject>) -> nat
    decreases s.len(),
{
    if s.len() == 0 {
        0
    } else {
        hit_count(main, s.subrange(0, s.len() - 1)) + if intersects(
            main.root(),
            s[s.len() - 1].root(),
        ) {
            1nat
        } else {
            0nat
        }
    }
}

/// Every obstacle either survives or is counted as hit.
pub proof fn lemma_survivors_and_hits(main: SceneObject, s: Seq<SceneObject>)
    ensures
        survivors(main, s).len() + hit_count(main, s) == s.len(),
    decreases s.len(),
{
    if s.len() > 0 {
        lemma_survivors_and_hits(main, s.subrange(0, s.len() - 1));
    }
}

/// Tests each obstacle of `queue` against `main`; returns the obstacles that were
/// not hit, in their order, and how many were hit.
pub fn collide_queue(main: &SceneObject, queue: Vec<SceneObject>) -> (r: (Vec<SceneObject>, usize))
    ensures
        r.0@ == survivors(*main, queue@),
        r.1 == hit_count(*main, queue@),
{
    let ghost orig = queue@;
    let n = queue.len();
    let mut queue = queue;
    let mut rev: Vec<SceneObject> = Vec::new();
    while queue.len() > 0
        invariant
            queue@.len() + rev@.len() == n,
            n == orig.len(),
            queue@ == orig.subrange(0, queue@.len() as int),
            forall|j: int| 0 <= j < rev@.len() ==> #[trigger] rev@[j] == orig[n - 1 - j],
        decreases queue@.len(),
    {
        let item = queue.pop().unwrap();
        rev.push(item);
    }
    let mut kept: Vec<SceneObject> = Vec::new();
    let mut hits: usize = 0;
    let mut i: usize = 0;
    while rev.len() > 0
        invariant
            rev@.len() + i == n,
            n == orig.len(),
            forall|j: int| 0 <= j < rev@.len() ==> #[trigger] rev@[j] == orig[n - 1 - j],
            kept@ == survivors(*main, orig.subrange(0, i as int)),
            hits == hit_count(*main, orig.subrange(0, i as int)),
            hits <= i,
        decreases rev@.len(),
    {
        let item = rev.pop().unwrap();
        assert(item == orig[i as int]);
        proof {
            let next = orig.subrange(0, i + 1);
            assert(next.subrange(0, i as int) =~= orig.subrange(0, i as int));
            assert(next[i as int] == orig[i as int]);
            lemma_hit_count_bound(*main, orig.subrange(0, i as int));
        }
        if main.check_intersection(&item) {
            hits = hits + 1;
        } else {
            kept.push(item);
        }
        i = i + 1;
    }
    assert(orig.subrange(0, i as int) =~= orig);
    (kept, hits)
}

/// No more obstacles are hit than there are.
proof fn lemma_hit_count_bound(main: SceneObject, s: Seq<SceneObject>)
    ensures
        hit_count(main, s) <= s.len(),
{
    lemma_survivors_and_hits(main, s);
}

} // verus!
