//! Perception engine: every tick, each agent casts a ray from the
//! front-center of its bounding box straight ahead (the +y direction), up to
//! the sight distance, against every other agent's bounding box, and records
//! the distance to the nearest intersection, or the sentinel `-1` when
//! nothing is in sight.
//!
//! When a hit is recorded the previous `front_distance` is rotated into
//! `last_front_distance`; when none is, the history is left untouched. A
//! hit at distance zero (already touching or overlapping) forces the
//! agent's velocity to exactly zero in both axes: a hard stop on contact.

use vstd::prelude::*;
use crate::constants::CAR_SIGHT_DISTANCE;
use crate::components::{
    CollisionInformation, DriverAgent, Velocity, wf_agent, wf_agents, wf_front_distance,
};
use crate::util::Vec2;

verus! {

/// Does a ray cast from `(ox, oy)` straight up (+y) with range `max` hit
/// the axis-aligned box centered at `(cx, cy)` with half-extent `(hx, hy)`?
pub open spec fn spec_ray_hits(
    ox: int, oy: int, max: int, cx: int, cy: int, hx: int, hy: int,
) -> bool {
    &&& cx - hx <= ox <= cx + hx  // the vertical ray runs through the box's x-slab
    &&& oy <= cy + hy             // the box is not entirely behind the origin
    &&& cy - hy <= oy + max       // the box's near edge is within range
}

/// Distance along such a ray to the box: the distance to the box's near
/// edge, or zero when the origin is already touching or inside the box.
pub open spec fn spec_ray_hit_distance(oy: int, cy: int, hy: int) -> int {
    if cy - hy - oy >= 0 {
        cy - hy - oy
    } else {
        0
    }
}

/// The front-center point of an agent's bounding box, where its
/// forward-looking ray starts.
pub fn get_car_front_middle(agent: &DriverAgent) -> (r: Vec2)
    requires
        -1_000_000_000 <= agent.position.y <= 1_000_000_000,
        0 <= agent.size.y <= 1_000_000,
    ensures
        r.x == agent.position.x,
        r.y == agent.position.y + agent.size.y / 2,
{
    Vec2 { x: agent.position.x, y: agent.position.y + agent.size.y / 2 }
}

/// Cast a ray from `origin` straight up with range `max` against `target`'s
/// bounding box; return the distance to the nearest intersection point, or
/// `None` when the ray misses the box.
pub fn check_raycast_intersection(
    origin: Vec2,
    max: i64,
    target: &DriverAgent,
) -> (r: Option<i64>)
    requires
        0 <= max <= CAR_SIGHT_DISTANCE,
        -2_000_000_000 <= origin.x <= 2_000_000_000,
        -2_000_000_000 <= origin.y <= 2_000_000_000,
        -2_000_000_000 <= target.position.x <= 2_000_000_000,
        -2_000_000_000 <= target.position.y <= 2_000_000_000,
        0 <= target.size.x <= 1_000_000,
        0 <= target.size.y <= 1_000_000,
    ensures
        ({
            let hx = target.size.x / 2;
            let hy = target.size.y / 2;
            let hits = spec_ray_hits(
                origin.x as int, origin.y as int, max as int,
                target.position.x as int, target.position.y as int, hx as int, hy as int,
            );
            &&& (r is Some <==> hits)
            &&& (r is Some ==> r == Some(
                spec_ray_hit_distance(
                    origin.y as int, target.position.y as int, hy as int,
                ) as i64,
            ))
            &&& (r is Some ==> 0 <= r.unwrap() <= max)
        }),
{
    let hx = target.size.x / 2;
    let hy = target.size.y / 2;
    let box_left = target.position.x - hx;
    let box_right = target.position.x + hx;
    let box_near = target.position.y - hy;
    let box_far = target.position.y + hy;
    if box_left <= origin.x && origin.x <= box_right
        && origin.y <= box_far
        && box_near <= origin.y + max {
        let entry = box_near - origin.y;
        if entry >= 0 {
            Some(entry)
        } else {
            Some(0)
        }
    } else {
        None
    }
}

/// The intersection distance of agent `i`'s forward ray against agent `j`'s
/// bounding box, or `-1` when the ray misses it.
pub open spec fn spec_hit_of(s: Seq<DriverAgent>, i: int, j: int) -> int {
    let a = s[i];
    let t = s[j];
    let ox = a.position.x as int;
    let oy = a.position.y + a.size.y as int / 2;
    if spec_ray_hits(
        ox, oy, CAR_SIGHT_DISTANCE as int,
        t.position.x as int, t.position.y as int,
        t.size.x as int / 2, t.size.y as int / 2,
    ) {
        spec_ray_hit_distance(oy, t.position.y as int, t.size.y as int / 2)
    } else {
        -1
    }
}

/// The closest intersection distance of agent `i`'s ray over the other
/// agents with index below `n`, or `-1` when none intersects.
pub open spec fn spec_min_hit_prefix(s: Seq<DriverAgent>, i: int, n: int) -> int
    decreases n,
{
    if n <= 0 {
        -1
    } else {
        let prev = spec_min_hit_prefix(s, i, n - 1);
        let cur = if n - 1 == i {
            -1
        } else {
            spec_hit_of(s, i, n - 1)
        };
        if cur == -1 {
            prev
        } else if prev == -1 {
            cur
        } else if cur < prev {
            cur
        } else {
            prev
        }
    }
}

/// The closest intersection distance of agent `i`'s forward ray over all
/// other agents, or `-1` when no other agent is in sight.
pub open spec fn spec_closest_hit(s: Seq<DriverAgent>, i: int) -> int {
    spec_min_hit_prefix(s, i, s.len() as int)
}

proof fn lemma_min_hit_prefix_properties(s: Seq<DriverAgent>, i: int, n: int)
    requires
        0 <= n <= s.len(),
    ensures
        spec_min_hit_prefix(s, i, n) == -1 || spec_min_hit_prefix(s, i, n) >= 0,
        spec_min_hit_prefix(s, i, n) == -1 ==> forall|j: int|
            0 <= j < n && j != i ==> #[trigger] spec_hit_of(s, i, j) == -1,
        spec_min_hit_prefix(s, i, n) != -1 ==> exists|j: int|
            0 <= j < n && j != i && #[trigger] spec_hit_of(s, i, j) == spec_min_hit_prefix(s, i, n),
        forall|j: int|
            0 <= j < n && j != i && #[trigger] spec_hit_of(s, i, j) != -1
                ==> spec_min_hit_prefix(s, i, n) != -1
                    && spec_min_hit_prefix(s, i, n) <= spec_hit_of(s, i, j),
    decreases n,
{
    if n > 0 {
        lemma_min_hit_prefix_properties(s, i, n - 1);
    }
}

/// No ray ever hits a box at a negative distance, and no hit is farther
/// than the sight distance: the closest hit is the sentinel `-1` or a
/// well-formed perceived distance.
pub proof fn lemma_closest_hit_wf(s: Seq<DriverAgent>, i: int)
    ensures
        wf_front_distance(spec_closest_hit(s, i)),
{
    lemma_closest_hit_bounds_prefix(s, i, s.len() as int);
}

proof fn lemma_closest_hit_bounds_prefix(s: Seq<DriverAgent>, i: int, n: int)
    ensures
        spec_min_hit_prefix(s, i, n) == -1
            || 0 <= spec_min_hit_prefix(s, i, n) <= CAR_SIGHT_DISTANCE,
    decreases n,
{
    if n > 0 {
        lemma_closest_hit_bounds_prefix(s, i, n - 1);
    }
}

/// Nearest-obstacle selection is correct: when the closest hit is the
/// sentinel `-1`, no other agent's box intersects the ray at all; when it
/// is a distance, some other agent's box intersects the ray at exactly that
/// distance and no other agent's box intersects it closer.
pub proof fn lemma_closest_hit_is_minimum(s: Seq<DriverAgent>, i: int)
    ensures
        spec_closest_hit(s, i) == -1 ==> forall|j: int|
            0 <= j < s.len() && j != i ==> #[trigger] spec_hit_of(s, i, j) == -1,
        spec_closest_hit(s, i) != -1 ==> exists|j: int|
            0 <= j < s.len() && j != i
                && #[trigger] spec_hit_of(s, i, j) == spec_closest_hit(s, i),
        forall|j: int|
            0 <= j < s.len() && j != i && #[trigger] spec_hit_of(s, i, j) != -1
                ==> spec_closest_hit(s, i) != -1
                    && spec_closest_hit(s, i) <= spec_hit_of(s, i, j),
{
    lemma_min_hit_prefix_properties(s, i, s.len() as int);
}

/// What perception writes to agent `i`: on a hit, the distance history is
/// rotated and the new closest distance stored, and a contact (distance
/// zero) additionally stops the agent dead; on a miss, only the sentinel is
/// stored.
pub open spec fn spec_perceive_agent(s: Seq<DriverAgent>, i: int) -> DriverAgent {
    let a = s[i];
    let hit = spec_closest_hit(s, i);
    if hit == -1 {
        DriverAgent {
            collision_information: CollisionInformation {
                front_distance: -1i64,
                ..a.collision_information
            },
            ..a
        }
    } else {
        let ci = CollisionInformation {
            last_front_distance: a.collision_information.front_distance,
            front_distance: hit as i64,
        };
        if hit <= 0 {
            DriverAgent { collision_information: ci, velocity: Velocity { x: 0i64, y: 0i64 }, ..a }
        } else {
            DriverAgent { collision_information: ci, ..a }
        }
    }
}

/// The whole perception stage as a function on the agent collection.
pub open spec fn spec_perception(s: Seq<DriverAgent>) -> Seq<DriverAgent> {
    Seq::new(s.len(), |i: int| spec_perceive_agent(s, i))
}

/// Run the perception engine over every agent.
///
/// Afterwards each agent's `front_distance` is the distance to the nearest
/// other agent its forward ray intersects, or `-1` when its ray intersects
/// no other agent within sight range.
pub fn collision_system(agents: &mut Vec<DriverAgent>)
    requires
        wf_agents(old(agents)@),
    ensures
        final(agents)@ =~= spec_perception(old(agents)@),
        wf_agents(final(agents)@),
        // no obstacle in sight leaves the sentinel
        forall|i: int| 0 <= i < old(agents)@.len()
            && (forall|j: int| 0 <= j < old(agents)@.len() && j != i
                ==> #[trigger] spec_hit_of(old(agents)@, i, j) == -1)
            ==> #[trigger] final(agents)@[i].collision_information.front_distance == -1,
        // the stored distance is never a farther hit when a closer one exists
        forall|i: int| 0 <= i < old(agents)@.len()
            ==> (#[trigger] final(agents)@[i]).collision_information.front_distance as int
                == spec_closest_hit(old(agents)@, i),
{
    let ghost s = agents@;
    let n = agents.len();

    // First pass: compute every agent's closest hit from the unchanged
    // collection, so that later writes cannot influence earlier reads.
    let mut hits: Vec<i64> = Vec::new();
    let mut i: usize = 0;
    while i < n
        invariant
            0 <= i <= n,
            n == s.len(),
            agents@ == s,
            wf_agents(s),
            hits@.len() == i as int,
            forall|k: int| 0 <= k < i as int
                ==> #[trigger] hits@[k] as int == spec_closest_hit(s, k),
        decreases n - i,
    {
        let origin = get_car_front_middle(&agents[i]);
        let mut best: i64 = -1;
        let mut j: usize = 0;
        while j < n
            invariant
                0 <= j <= n,
                0 <= i < n,
                n == s.len(),
                agents@ == s,
                wf_agents(s),
                origin.x == s[i as int].position.x,
                origin.y == s[i as int].position.y + s[i as int].size.y as int / 2,
                best as int == spec_min_hit_prefix(s, i as int, j as int),
            decreases n - j,
        {
            if j != i {
                proof {
                    assert(wf_agent(s[i as int]));
                    assert(wf_agent(s[j as int]));
                }
                match check_raycast_intersection(origin, CAR_SIGHT_DISTANCE, &agents[j]) {
                    Some(d) => {
                        if best == -1 || d < best {
                            best = d;
                        }
                    },
                    None => {},
                }
            }
            j = j + 1;
        }
        hits.push(best);
        i = i + 1;
    }

    // Second pass: apply each agent's new perception state.
    let mut i: usize = 0;
    while i < n
        invariant
            0 <= i <= n,
            n == s.len(),
            agents@.len() == s.len(),
            wf_agents(s),
            hits@.len() == n as int,
            forall|k: int| 0 <= k < n as int
                ==> #[trigger] hits@[k] as int == spec_closest_hit(s, k),
            forall|k: int| 0 <= k < i as int
                ==> #[trigger] agents@[k] == spec_perceive_agent(s, k),
            forall|k: int| i as int <= k < n as int ==> #[trigger] agents@[k] == s[k],
        decreases n - i,
    {
        let hit = hits[i];
        proof {
            lemma_closest_hit_wf(s, i as int);
        }
        let mut a = agents[i];
        if hit == -1 {
            a.collision_information.front_distance = -1;
        } else {
            a.collision_information.last_front_distance = a.collision_information.front_distance;
            a.collision_information.front_distance = hit;
            if hit <= 0 {
                a.velocity = Velocity { x: 0, y: 0 };
            }
        }
        agents[i] = a;
        i = i + 1;
    }

    proof {
        assert(agents@ =~= spec_perception(s));
        assert forall|k: int| 0 <= k < s.len() implies wf_agent(#[trigger] agents@[k])
            && agents@[k].collision_information.front_distance as int == spec_closest_hit(s, k) by {
            lemma_closest_hit_wf(s, k);
            assert(agents@[k] == spec_perceive_agent(s, k));
        }
        assert forall|k: int| 0 <= k < s.len()
            && (forall|j: int| 0 <= j < s.len() && j != k
                ==> #[trigger] spec_hit_of(s, k, j) == -1)
            implies (#[trigger] agents@[k]).collision_information.front_distance == -1 by {
            lemma_min_hit_prefix_properties(s, k, s.len() as int);
            assert(spec_closest_hit(s, k) == -1);
        }
    }
}

} // verus!
