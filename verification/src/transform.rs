//! Hierarchical transform propagation.
//!
//! Starting from the designated world-root entity, a depth-first walk
//! over the parent-to-children relation (explicit stack, no recursion)
//! composes each child's local transform with its parent's accumulated
//! transform, caching the child's global transform matrix, global
//! position and global rotation.  Sibling order is unconstrained; each
//! entity is visited at most once.

use vstd::prelude::*;
use crate::components::{GlobalPosition, GlobalRotation, TwoDimTrans};
use crate::errors::PhysicsError;
use crate::fx::{add_sat, fx_add};
use crate::mat::{mat_apply, mat_compose, mat_rotation_translation, Mat2d};
use crate::trig::{cos_fx, cos_spec, sin_fx, sin_spec};
use crate::world::{EntityData, World};

verus! {

/// True when `a` and `b` agree on every component except the cached
/// transform outputs (transform matrix, global position, global
/// rotation).
pub open spec fn same_except_transform(a: EntityData, b: EntityData) -> bool {
    &&& a.position == b.position
    &&& a.rotation == b.rotation
    &&& a.velocity == b.velocity
    &&& a.angular_velocity == b.angular_velocity
    &&& a.acceleration == b.acceleration
    &&& a.resistance == b.resistance
    &&& a.friction == b.friction
    &&& a.adjust_acceleration == b.adjust_acceleration
    &&& a.adjust_velocity == b.adjust_velocity
    &&& a.override_acceleration == b.override_acceleration
    &&& a.override_velocity == b.override_velocity
    &&& a.override_angular_velocity == b.override_angular_velocity
    &&& a.shape == b.shape
    &&& a.wall_sensor == b.wall_sensor
    &&& a.health == b.health
    &&& a.jumper == b.jumper
    &&& a.attacker == b.attacker
    &&& a.gravity == b.gravity
    &&& a.collider == b.collider
    &&& a.wall == b.wall
    &&& a.wall_collider == b.wall_collider
    &&& a.game_world == b.game_world
    &&& a.children == b.children
}

/// All five components the walk reads and writes on a visited entity.
pub open spec fn has_full_transform(e: EntityData) -> bool {
    &&& e.transform is Some
    &&& e.global_rotation is Some
    &&& e.global_position is Some
    &&& e.position is Some
    &&& e.rotation is Some
}

/// Whether entity `c` appears in the children list of entity `p`.
pub open spec fn is_child_of(s: Seq<EntityData>, p: int, c: int) -> bool {
    &&& 0 <= p < s.len()
    &&& exists|k: int| 0 <= k < s[p].children@.len() && s[p].children@[k] == c
}

/// The child after one propagation step below a parent whose accumulated
/// matrix is `pm` and whose global rotation is `pr`: the child's cached
/// transform is `pm` composed with the child's local rotation and
/// translation; its cached global position is the child's local position
/// sent through `pm`; its cached global rotation is the sum of `pr` and
/// the child's local rotation.
pub open spec fn child_update_parts(pm: Mat2d, pr: i64, child: EntityData) -> EntityData {
    let lp = (child.position->0).0;
    let lr = (child.rotation->0).0;
    let local = mat_rotation_translation(cos_spec(lr as int) as i64, sin_spec(lr as int) as i64, lp);
    EntityData {
        transform: Some(TwoDimTrans(mat_compose(pm, local))),
        global_position: Some(GlobalPosition(mat_apply(pm, lp))),
        global_rotation: Some(GlobalRotation(add_sat(pr as int, lr as int) as i64)),
        ..child
    }
}

/// The child after one propagation step below its parent.
pub open spec fn child_update(parent: EntityData, child: EntityData) -> EntityData {
    child_update_parts((parent.transform->0).0, (parent.global_rotation->0).0, child)
}

/// One propagation step changes only the cached transform outputs.
proof fn lemma_child_update_frame(pm: Mat2d, pr: i64, child: EntityData)
    ensures
        same_except_transform(child_update_parts(pm, pr, child), child),
{
}

/// Write one child's propagated transform, global position and global
/// rotation, leaving every other entity alone.
fn write_child_transform(w: &mut World, child: usize, ptrans: Mat2d, prot: i64)
    requires
        child < old(w)@.len(),
        has_full_transform(old(w)@[child as int]),
    ensures
        final(w)@.len() == old(w)@.len(),
        forall|j: int|
            0 <= j < old(w)@.len() && j != child ==> final(w)@[j] == old(w)@[j],
        final(w)@[child as int] == child_update_parts(ptrans, prot, old(w)@[child as int]),
{
    let lp = w.entities[child].position.unwrap().0;
    let lr = w.entities[child].rotation.unwrap().0;
    let local = Mat2d::rotation_translation(cos_fx(lr), sin_fx(lr), lp);
    let ct = ptrans.compose(local);
    let cgp = ptrans.transform_point(lp);
    let cgr = fx_add(prot, lr);
    w.entities[child].transform = Some(TwoDimTrans(ct));
    w.entities[child].global_position = Some(GlobalPosition(cgp));
    w.entities[child].global_rotation = Some(GlobalRotation(cgr));
}

/// A path from the root to `j` along the children relation, each step
/// landing on an in-range entity that carries the full transform
/// component set.
#[verifier::opaque]
pub open spec fn is_tpath(s: Seq<EntityData>, root: int, path: Seq<int>, j: int) -> bool {
    &&& path.len() > 0
    &&& path[0] == root
    &&& path[path.len() - 1] == j
    &&& forall|k: int|
        1 <= k < path.len()
            ==> is_child_of(s, path[k - 1], #[trigger] path[k]) && 0 <= path[k] < s.len()
                && has_full_transform(s[path[k]])
}

/// Whether the walk can reach entity `j` from the root.
#[verifier::opaque]
pub open spec fn treachable(s: Seq<EntityData>, root: int, j: int) -> bool {
    exists|path: Seq<int>| is_tpath(s, root, path, j)
}

/// The root reaches itself, and reaches each fully-equipped child of an
/// entity it reaches.
pub proof fn lemma_treachable_step(s: Seq<EntityData>, root: int, p: int, c: int)
    requires
        treachable(s, root, p) || p == root,
        is_child_of(s, p, c),
        0 <= c < s.len(),
        has_full_transform(s[c]),
    ensures
        treachable(s, root, c),
        treachable(s, root, root),
{
    reveal(treachable);
    reveal(is_tpath);
    assert(is_tpath(s, root, seq![root], root));
    if p == root && !treachable(s, root, p) {
        assert(treachable(s, root, p));
    }
    let pth = choose|pth: Seq<int>| is_tpath(s, root, pth, p);
    assert(is_tpath(s, root, pth.push(c), c));
}

/// Whether `j` occurs in the stack.
pub open spec fn in_seq(s: Seq<usize>, j: int) -> bool {
    exists|k: int| 0 <= k < s.len() && s[k] == j
}

/// The number of `false` entries of a boolean sequence.
pub open spec fn count_false(s: Seq<bool>) -> nat
    decreases s.len(),
{
    if s.len() == 0 {
        0
    } else {
        count_false(s.drop_last()) + if s.last() {
            0nat
        } else {
            1nat
        }
    }
}

/// Marking a `false` entry `true` lowers the count of `false` entries by
/// exactly one.
proof fn lemma_count_false_update(s: Seq<bool>, i: int)
    requires
        0 <= i < s.len(),
        !s[i],
    ensures
        count_false(s.update(i, true)) == count_false(s) - 1,
    decreases s.len(),
{
    if i == s.len() - 1 {
        assert(s.update(i, true).drop_last() =~= s.drop_last());
    } else {
        assert(s.update(i, true).drop_last() =~= s.drop_last().update(i, true));
        lemma_count_false_update(s.drop_last(), i);
    }
}

/// Every entity with a root-to-it path is visited, once the visited set
/// is closed under taking children.
proof fn lemma_path_visited(
    s: Seq<EntityData>, root: int, path: Seq<int>, j: int, visited: Seq<bool>,
)
    requires
        is_tpath(s, root, path, j),
        visited.len() == s.len(),
        0 <= root < s.len(),
        visited[root],
        forall|p: int, k: int|
            0 <= p < s.len() && visited[p] && 0 <= k < s[p].children@.len()
                && 0 <= #[trigger] s[p].children@[k] < s.len()
                && has_full_transform(s[s[p].children@[k] as int])
                ==> visited[s[p].children@[k] as int],
    ensures
        visited[j],
    decreases path.len(),
{
    reveal(is_tpath);
    if path.len() == 1 {
        assert(j == root);
    } else {
        let prefix = path.drop_last();
        let p = path[path.len() - 2];
        assert(is_tpath(s, root, prefix, p));
        lemma_path_visited(s, root, prefix, p, visited);
        assert(is_child_of(s, p, j) && 0 <= j < s.len() && has_full_transform(s[j]));
        let k = choose|k: int| 0 <= k < s[p].children@.len() && s[p].children@[k] == j;
        assert(visited[s[p].children@[k] as int]);
    }
}

/// Assemble the walk's exit facts into the function's guarantee: once
/// the visited set is closed under children and every visited entity
/// holds its parent's composed transform, the store satisfies
/// `propagated` for the unique root.
proof fn lemma_propagation_complete(
    s0: Seq<EntityData>,
    s1: Seq<EntityData>,
    visited: Seq<bool>,
    parent_of: Seq<int>,
    root: int,
)
    requires
        s0.len() == s1.len(),
        visited.len() == s0.len(),
        parent_of.len() == s0.len(),
        0 <= root < s0.len(),
        s0[root].game_world,
        forall|k: int| 0 <= k < s0.len() && k != root ==> !s0[k].game_world,
        has_full_transform(s0[root]),
        s0[root].transform is Some,
        s0[root].children@.len() > 0,
        visited[root],
        s1[root] == s0[root],
        forall|j: int| 0 <= j < s0.len() && !visited[j] ==> s1[j] == s0[j],
        forall|j: int|
            0 <= j < s0.len() && visited[j]
                ==> treachable(s0, root, j) && has_full_transform(s0[j]),
        forall|j: int|
            0 <= j < s0.len() && visited[j] && j != root ==> {
                &&& 0 <= parent_of[j] < s0.len()
                &&& visited[parent_of[j]]
                &&& is_child_of(s0, parent_of[j], j)
                &&& s1[j] == child_update(s1[parent_of[j]], s0[j])
            },
        forall|p: int, k: int|
            0 <= p < s0.len() && visited[p] && 0 <= k < s0[p].children@.len()
                && 0 <= #[trigger] s0[p].children@[k] < s0.len()
                && has_full_transform(s0[s0[p].children@[k] as int])
                ==> visited[s0[p].children@[k] as int],
    ensures
        forall|j: int| 0 <= j < s0.len() ==> same_except_transform(s1[j], s0[j]),
        forall|r2: int|
            0 <= r2 < s0.len() && s0[r2].game_world ==> #[trigger] propagated(s0, s1, r2),
{
    assert forall|j: int| 0 <= j < s0.len() implies same_except_transform(s1[j], s0[j]) by {
        if visited[j] && j != root {
            lemma_child_update_frame(
                (s1[parent_of[j]].transform->0).0,
                (s1[parent_of[j]].global_rotation->0).0,
                s0[j],
            );
        }
    };
    assert forall|j: int|
        0 <= j < s0.len() && j != root && treachable(s0, root, j) implies visited[j]
    by {
        reveal(treachable);
        let pth = choose|pth: Seq<int>| is_tpath(s0, root, pth, j);
        lemma_path_visited(s0, root, pth, j, visited);
    };
    assert forall|j: int|
        0 <= j < s0.len() && j != root && treachable(s0, root, j)
        implies exists|p: int|
            {
                &&& is_child_of(s0, p, j)
                &&& treachable(s0, root, p)
                &&& s1[j] == child_update(s1[p], s0[j])
            }
    by {
        let p = parent_of[j];
        assert(is_child_of(s0, p, j) && treachable(s0, root, p)
            && s1[j] == child_update(s1[p], s0[j]));
    };
    assert(propagated(s0, s1, root));
    assert forall|r2: int|
        0 <= r2 < s0.len() && s0[r2].game_world implies #[trigger] propagated(s0, s1, r2)
    by {
        assert(r2 == root);
    };
}

/// What a completed propagation guarantees with respect to the world
/// root: the root is unique and unchanged; when it has no transform or
/// no children, nothing changed at all; otherwise every entity the walk
/// reaches holds the transform composed below its parent, and every
/// other entity is untouched.
pub open spec fn propagated(s0: Seq<EntityData>, s1: Seq<EntityData>, root: int) -> bool {
    &&& forall|k: int| 0 <= k < s0.len() && k != root ==> !s0[k].game_world
    &&& s1[root] == s0[root]
    &&& if s0[root].transform is None || s0[root].children@.len() == 0 {
        s1 == s0
    } else {
        &&& has_full_transform(s0[root])
        &&& forall|j: int|
            0 <= j < s0.len() && j != root && treachable(s0, root, j)
                ==> exists|p: int|
                {
                    &&& is_child_of(s0, p, j)
                    &&& treachable(s0, root, p)
                    &&& s1[j] == child_update(s1[p], s0[j])
                }
        &&& forall|j: int|
            0 <= j < s0.len() && j != root && !treachable(s0, root, j) ==> s1[j] == s0[j]
    }
}

/// Why propagation over the store `s` fails with the error `e`: no
/// world root, more than one, or a unique root that has a transform and
/// children but lacks part of the transform component set.  No other
/// error can arise from propagation.
pub open spec fn propagation_error(s: Seq<EntityData>, e: PhysicsError) -> bool {
    match e {
        PhysicsError::NoWorldRoot => forall|j: int| 0 <= j < s.len() ==> !s[j].game_world,
        PhysicsError::MultipleWorldRoots => exists|j1: int, j2: int|
            0 <= j1 < j2 < s.len() && s[j1].game_world && s[j2].game_world,
        PhysicsError::MissingComponent { entity } => {
            &&& 0 <= entity < s.len()
            &&& s[entity as int].game_world
            &&& s[entity as int].transform is Some
            &&& s[entity as int].children@.len() > 0
            &&& !has_full_transform(s[entity as int])
        },
        _ => false,
    }
}

/// Propagate transforms down the hierarchy.  The unique world-root
/// entity anchors the walk with its current accumulated transform; each
/// entity reachable from it through fully-equipped children receives the
/// composed transform of its parent, and nothing else in the store
/// changes.  Errors: no world root, more than one, or a root that has a
/// transform and children but lacks part of the transform component set.
#[verifier::rlimit(100)]
pub fn propagate_transform(w: &mut World) -> (r: Result<(), PhysicsError>)
    ensures
        final(w)@.len() == old(w)@.len(),
        forall|j: int|
            0 <= j < old(w)@.len() ==> same_except_transform(final(w)@[j], old(w)@[j]),
        match r {
            Err(e) => final(w)@ == old(w)@ && propagation_error(old(w)@, e),
            Ok(()) => {
                &&& exists|root: int| 0 <= root < old(w)@.len() && old(w)@[root].game_world
                &&& forall|root: int|
                    0 <= root < old(w)@.len() && old(w)@[root].game_world
                        ==> #[trigger] propagated(old(w)@, final(w)@, root)
            },
        },
{
    let n = w.entities.len();

    // Find the single designated world root.
    let mut root_opt: Option<usize> = None;
    let mut i: usize = 0;
    while i < n
        invariant
            i <= n,
            n == w@.len(),
            w@ == old(w)@,
            match root_opt {
                Some(r) => r < i && old(w)@[r as int].game_world && forall|k: int|
                    0 <= k < i && k != r ==> !old(w)@[k].game_world,
                None => forall|k: int| 0 <= k < i ==> !old(w)@[k].game_world,
            },
        decreases n - i,
    {
        if w.entities[i].game_world {
            if root_opt.is_some() {
                return Err(PhysicsError::MultipleWorldRoots);
            }
            root_opt = Some(i);
        }
        i = i + 1;
    }
    let root: usize = match root_opt {
        None => {
            return Err(PhysicsError::NoWorldRoot);
        },
        Some(r) => r,
    };

    if w.entities[root].transform.is_none() || w.entities[root].children.len() == 0 {
        return Ok(());
    }
    if !(w.entities[root].global_rotation.is_some() && w.entities[root].global_position.is_some()
        && w.entities[root].position.is_some() && w.entities[root].rotation.is_some()) {
        return Err(PhysicsError::MissingComponent { entity: root });
    }

    // Depth-first walk with an explicit stack; each entity is visited at
    // most once.  The ghost parent map records which parent updated each
    // visited entity; the ghost done set records entities whose children
    // have all been handled.
    let mut visited: Vec<bool> = Vec::new();
    let mut i: usize = 0;
    while i < n
        invariant
            i <= n,
            visited@.len() == i,
            forall|k: int| 0 <= k < i ==> !visited@[k],
        decreases n - i,
    {
        visited.push(false);
        i = i + 1;
    }
    visited[root] = true;
    let mut stack: Vec<usize> = Vec::new();
    stack.push(root);
    let ghost mut parent_of: Seq<int> = Seq::new(n as nat, |j: int| -1);
    let ghost mut done: Seq<bool> = Seq::new(n as nat, |j: int| false);
    proof {
        reveal(treachable);
        reveal(is_tpath);
        assert(is_tpath(old(w)@, root as int, seq![root as int], root as int));
        assert(treachable(old(w)@, root as int, root as int));
        assert(stack@[0] == root);
        assert(in_seq(stack@, root as int));
    }

    while stack.len() > 0
        invariant
            n == w@.len(),
            n == old(w)@.len(),
            visited@.len() == n,
            done.len() == n,
            parent_of.len() == n,
            root < n,
            old(w)@[root as int].game_world,
            has_full_transform(old(w)@[root as int]),
            visited@[root as int],
            w@[root as int] == old(w)@[root as int],
            forall|k: int|
                0 <= k < stack@.len()
                    ==> 0 <= #[trigger] stack@[k] < n && visited@[stack@[k] as int]
                        && !done[stack@[k] as int],
            forall|k1: int, k2: int|
                0 <= k1 < k2 < stack@.len() ==> stack@[k1] != stack@[k2],
            forall|j: int| 0 <= j < n && !visited@[j] ==> w@[j] == old(w)@[j],
            forall|j: int| 0 <= j < n && done[j] ==> visited@[j],
            forall|j: int| 0 <= j < n && visited@[j] ==> done[j] || in_seq(stack@, j),
            forall|j: int|
                0 <= j < n && visited@[j]
                    ==> treachable(old(w)@, root as int, j) && has_full_transform(old(w)@[j])
                        && has_full_transform(w@[j]) && w@[j].children@ == old(w)@[j].children@,
            forall|j: int|
                0 <= j < n && visited@[j] && j != root ==> {
                    &&& 0 <= parent_of[j] < n
                    &&& visited@[parent_of[j]]
                    &&& is_child_of(old(w)@, parent_of[j], j)
                    &&& w@[j] == child_update(w@[parent_of[j]], old(w)@[j])
                },
            forall|p: int, k: int|
                0 <= p < n && done[p] && 0 <= k < old(w)@[p].children@.len()
                    && 0 <= #[trigger] old(w)@[p].children@[k] < n
                    && has_full_transform(old(w)@[old(w)@[p].children@[k] as int])
                    ==> visited@[old(w)@[p].children@[k] as int],
        decreases count_false(visited@), stack@.len(),
    {
        let ghost visited_start = visited@;
        let ghost stack_start = stack@;
        let cur: usize = stack.pop().unwrap();
        proof {
            assert forall|j: int|
                0 <= j < n && visited@[j] && visited_start[j] implies done[j] || j == cur
                    || in_seq(stack@, j)
            by {
                if !done[j] && j != cur {
                    let k0 = choose|k0: int|
                        0 <= k0 < stack_start.len() && stack_start[k0] == j;
                    if k0 < stack_start.len() - 1 {
                        assert(stack@[k0] == j);
                    } else {
                        assert(stack_start[stack_start.len() - 1] == cur);
                    }
                }
            };
        }
        let ptrans: Mat2d = w.entities[cur].transform.unwrap().0;
        let prot: i64 = w.entities[cur].global_rotation.unwrap().0;
        let m = w.entities[cur].children.len();
        let mut k: usize = 0;
        while k < m
            invariant
                k <= m,
                cur < n,
                n == w@.len(),
                n == old(w)@.len(),
                visited@.len() == n,
                done.len() == n,
                parent_of.len() == n,
                root < n,
                old(w)@[root as int].game_world,
                has_full_transform(old(w)@[root as int]),
                visited@[root as int],
                visited@[cur as int],
                !done[cur as int],
                w@[root as int] == old(w)@[root as int],
                m == old(w)@[cur as int].children@.len(),
                w@[cur as int].children@ == old(w)@[cur as int].children@,
                ptrans == (w@[cur as int].transform->0).0,
                prot == (w@[cur as int].global_rotation->0).0,
                stack@.len() == stack_start.len() - 1 + (count_false(visited_start) - count_false(
                    visited@,
                )),
                forall|k2: int|
                    0 <= k2 < stack_start.len() - 1 ==> stack@[k2] == stack_start[k2],
                !in_seq(stack@, cur as int),
                forall|k2: int|
                    0 <= k2 < stack@.len()
                        ==> 0 <= #[trigger] stack@[k2] < n && visited@[stack@[k2] as int]
                            && !done[stack@[k2] as int],
                forall|k1: int, k2: int|
                    0 <= k1 < k2 < stack@.len() ==> stack@[k1] != stack@[k2],
                forall|j: int| 0 <= j < n && !visited@[j] ==> w@[j] == old(w)@[j],
                forall|j: int| 0 <= j < n && done[j] ==> visited@[j] && j != cur,
                forall|j: int|
                    0 <= j < n && visited@[j] && visited_start[j]
                        ==> done[j] || j == cur || in_seq(stack@, j),
                forall|j: int| 0 <= j < n && !visited_start[j] && visited@[j] ==> in_seq(stack@, j),
                forall|j: int|
                    0 <= j < n && visited@[j]
                        ==> treachable(old(w)@, root as int, j) && has_full_transform(old(w)@[j])
                            && has_full_transform(w@[j])
                            && w@[j].children@ == old(w)@[j].children@,
                forall|j: int|
                    0 <= j < n && visited@[j] && j != root ==> {
                        &&& 0 <= parent_of[j] < n
                        &&& visited@[parent_of[j]]
                        &&& is_child_of(old(w)@, parent_of[j], j)
                        &&& w@[j] == child_update(w@[parent_of[j]], old(w)@[j])
                    },
                forall|p: int, k2: int|
                    0 <= p < n && done[p] && 0 <= k2 < old(w)@[p].children@.len()
                        && 0 <= #[trigger] old(w)@[p].children@[k2] < n
                        && has_full_transform(old(w)@[old(w)@[p].children@[k2] as int])
                        ==> visited@[old(w)@[p].children@[k2] as int],
                forall|k2: int|
                    0 <= k2 < k && 0 <= #[trigger] old(w)@[cur as int].children@[k2] < n
                        && has_full_transform(old(w)@[old(w)@[cur as int].children@[k2] as int])
                        ==> visited@[old(w)@[cur as int].children@[k2] as int],
                count_false(visited@) <= count_false(visited_start),
            decreases m - k,
        {
            let child: usize = w.entities[cur].children[k];
            if child < n && !visited[child] {
                let child_full = w.entities[child].transform.is_some()
                    && w.entities[child].global_rotation.is_some()
                    && w.entities[child].global_position.is_some()
                    && w.entities[child].position.is_some()
                    && w.entities[child].rotation.is_some();
                if child_full {
                    proof {
                        assert(w@[child as int] == old(w)@[child as int]);
                        assert(is_child_of(old(w)@, cur as int, child as int)) by {
                            assert(old(w)@[cur as int].children@[k as int] == child);
                        }
                        lemma_treachable_step(old(w)@, root as int, cur as int, child as int);
                    }
                    write_child_transform(w, child, ptrans, prot);
                    proof {
                        lemma_count_false_update(visited@, child as int);
                        parent_of = parent_of.update(child as int, cur as int);
                    }
                    visited[child] = true;
                    let ghost stack_before = stack@;
                    stack.push(child);
                    proof {
                        assert(stack@ == stack_before.push(child));
                        assert forall|j: int| in_seq(stack_before, j) implies in_seq(
                            stack@,
                            j,
                        ) by {
                            let k0 = choose|k0: int|
                                0 <= k0 < stack_before.len() && stack_before[k0] == j;
                            assert(stack@[k0] == j);
                        };
                        assert(stack@[stack@.len() - 1] == child);
                        assert(in_seq(stack@, child as int));
                    }
                }
            }
            k = k + 1;
        }
        proof {
            done = done.update(cur as int, true);
            assert forall|j: int| 0 <= j < n && visited@[j] implies done[j] || in_seq(
                stack@,
                j,
            ) by {
                if !done[j] {
                    if visited_start[j] {
                        if j != cur && !done[j] {
                            let k0 = choose|k0: int|
                                0 <= k0 < stack_start.len() && stack_start[k0] == j;
                            if k0 < stack_start.len() - 1 {
                                assert(stack@[k0] == j);
                            } else {
                                assert(stack_start[stack_start.len() - 1] == cur);
                                assert(j == cur);
                            }
                        }
                    }
                }
            };
        }
    }

    proof {
        assert forall|j: int| 0 <= j < n && visited@[j] implies done[j] by {
            assert(!in_seq(stack@, j));
        };
        lemma_propagation_complete(old(w)@, w@, visited@, parent_of, root as int);
        assert(0 <= root < n && old(w)@[root as int].game_world);
    }
    Ok(())
}

} // verus!
