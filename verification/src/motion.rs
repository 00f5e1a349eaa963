//! Friction and the integrator: every tick, velocity decays by a fixed
//! rolling-resistance factor, positions advance by velocity times the tick
//! duration, and an agent that leaves the far end of the arena wraps back
//! to the near end, making the road a closed loop.

use vstd::prelude::*;
use crate::constants::{
    BOTTOM_WALL, FRICTION_DECAY_DEN, FRICTION_DECAY_NUM, MAX_TICK_MS, MS_PER_SECOND, TOP_WALL,
};
use crate::components::{DriverAgent, Velocity};
use crate::util::Vec2;

verus! {

/// One velocity component after one tick of rolling resistance, rounded
/// toward zero as the executable arithmetic rounds.
pub open spec fn spec_decay(v: int) -> int {
    if v >= 0 {
        v * FRICTION_DECAY_NUM / (FRICTION_DECAY_DEN as int)
    } else {
        -((-v) * FRICTION_DECAY_NUM / (FRICTION_DECAY_DEN as int))
    }
}

/// Friction never strengthens a velocity component and never flips its
/// sign.
pub proof fn lemma_decay_bounds(v: int)
    ensures
        v >= 0 ==> 0 <= spec_decay(v) <= v,
        v < 0 ==> v <= spec_decay(v) <= 0,
{
    if v >= 0 {
        assert(0 <= v * FRICTION_DECAY_NUM / (FRICTION_DECAY_DEN as int) <= v)
            by (nonlinear_arith)
            requires v >= 0, FRICTION_DECAY_NUM == 996, FRICTION_DECAY_DEN == 1000;
    } else {
        assert(0 <= (-v) * FRICTION_DECAY_NUM / (FRICTION_DECAY_DEN as int) <= -v)
            by (nonlinear_arith)
            requires v < 0, FRICTION_DECAY_NUM == 996, FRICTION_DECAY_DEN == 1000;
    }
}

/// What friction does to one agent.
pub open spec fn spec_friction_agent(a: DriverAgent) -> DriverAgent {
    DriverAgent {
        velocity: Velocity {
            x: spec_decay(a.velocity.x as int) as i64,
            y: spec_decay(a.velocity.y as int) as i64,
        },
        ..a
    }
}

/// The whole friction stage as a function on the agent collection.
pub open spec fn spec_friction(s: Seq<DriverAgent>) -> Seq<DriverAgent> {
    Seq::new(s.len(), |i: int| spec_friction_agent(s[i]))
}

/// Scale every agent's velocity by the rolling-resistance decay factor.
pub fn apply_friction(agents: &mut Vec<DriverAgent>)
    requires
        forall|i: int| 0 <= i < old(agents)@.len() ==> {
            let a = #[trigger] old(agents)@[i];
            &&& -1_000_000_000 <= a.velocity.x <= 1_000_000_000
            &&& -1_000_000_000 <= a.velocity.y <= 1_000_000_000
        },
    ensures
        final(agents)@ =~= spec_friction(old(agents)@),
{
    let ghost s = agents@;
    let n = agents.len();
    let mut i: usize = 0;
    while i < n
        invariant
            0 <= i <= n,
            n == s.len(),
            agents@.len() == s.len(),
            forall|k: int| 0 <= k < n as int ==> {
                let a = #[trigger] s[k];
                &&& -1_000_000_000 <= a.velocity.x <= 1_000_000_000
                &&& -1_000_000_000 <= a.velocity.y <= 1_000_000_000
            },
            forall|k: int| 0 <= k < i as int
                ==> #[trigger] agents@[k] == spec_friction_agent(s[k]),
            forall|k: int| i as int <= k < n as int ==> #[trigger] agents@[k] == s[k],
        decreases n - i,
    {
        let a = agents[i];
        proof {
            lemma_decay_bounds(a.velocity.x as int);
            lemma_decay_bounds(a.velocity.y as int);
        }
        let vx = if a.velocity.x >= 0 {
            a.velocity.x * FRICTION_DECAY_NUM / FRICTION_DECAY_DEN
        } else {
            -((-a.velocity.x) * FRICTION_DECAY_NUM / FRICTION_DECAY_DEN)
        };
        let vy = if a.velocity.y >= 0 {
            a.velocity.y * FRICTION_DECAY_NUM / FRICTION_DECAY_DEN
        } else {
            -((-a.velocity.y) * FRICTION_DECAY_NUM / FRICTION_DECAY_DEN)
        };
        let mut a2 = a;
        a2.velocity = Velocity { x: vx, y: vy };
        agents[i] = a2;
        i = i + 1;
    }
    proof {
        assert(agents@ =~= spec_friction(s));
    }
}

/// How far one velocity component carries in one tick, rounded toward
/// zero as the executable arithmetic rounds.
pub open spec fn spec_shift(v: int, dt_ms: int) -> int {
    if v >= 0 {
        v * dt_ms / (MS_PER_SECOND as int)
    } else {
        -((-v) * dt_ms / (MS_PER_SECOND as int))
    }
}

/// One tick never carries an agent farther than its velocity: the shift
/// has the velocity's sign and no greater magnitude.
pub proof fn lemma_shift_bounds(v: int, dt_ms: int)
    requires
        1 <= dt_ms <= MAX_TICK_MS,
    ensures
        v >= 0 ==> 0 <= spec_shift(v, dt_ms) <= v,
        v < 0 ==> v <= spec_shift(v, dt_ms) <= 0,
{
    if v >= 0 {
        assert(0 <= v * dt_ms / (MS_PER_SECOND as int) <= v) by (nonlinear_arith)
            requires v >= 0, 1 <= dt_ms <= 1000, MS_PER_SECOND == 1000;
    } else {
        assert(0 <= (-v) * dt_ms / (MS_PER_SECOND as int) <= -v) by (nonlinear_arith)
            requires v < 0, 1 <= dt_ms <= 1000, MS_PER_SECOND == 1000;
    }
}

/// What one tick of motion does to one agent's position.
pub open spec fn spec_integrate_agent(a: DriverAgent, dt_ms: int) -> DriverAgent {
    DriverAgent {
        position: Vec2 {
            x: (a.position.x + spec_shift(a.velocity.x as int, dt_ms)) as i64,
            y: (a.position.y + spec_shift(a.velocity.y as int, dt_ms)) as i64,
        },
        ..a
    }
}

/// The whole integrator stage as a function on the agent collection.
pub open spec fn spec_integrate(s: Seq<DriverAgent>, dt_ms: int) -> Seq<DriverAgent> {
    Seq::new(s.len(), |i: int| spec_integrate_agent(s[i], dt_ms))
}

/// Advance every agent's position by its velocity times the tick duration.
pub fn apply_velocity(agents: &mut Vec<DriverAgent>, dt_ms: i64)
    requires
        1 <= dt_ms <= MAX_TICK_MS,
        forall|i: int| 0 <= i < old(agents)@.len() ==> {
            let a = #[trigger] old(agents)@[i];
            &&& -1_000_000_000 <= a.velocity.x <= 1_000_000_000
            &&& -1_000_000_000 <= a.velocity.y <= 1_000_000_000
            &&& -1_000_000_000 <= a.position.x <= 1_000_000_000
            &&& -1_000_000_000 <= a.position.y <= 1_000_000_000
        },
    ensures
        final(agents)@ =~= spec_integrate(old(agents)@, dt_ms as int),
{
    let ghost s = agents@;
    let n = agents.len();
    let mut i: usize = 0;
    while i < n
        invariant
            0 <= i <= n,
            n == s.len(),
            agents@.len() == s.len(),
            1 <= dt_ms <= MAX_TICK_MS,
            forall|k: int| 0 <= k < n as int ==> {
                let a = #[trigger] s[k];
                &&& -1_000_000_000 <= a.velocity.x <= 1_000_000_000
                &&& -1_000_000_000 <= a.velocity.y <= 1_000_000_000
                &&& -1_000_000_000 <= a.position.x <= 1_000_000_000
                &&& -1_000_000_000 <= a.position.y <= 1_000_000_000
            },
            forall|k: int| 0 <= k < i as int
                ==> #[trigger] agents@[k] == spec_integrate_agent(s[k], dt_ms as int),
            forall|k: int| i as int <= k < n as int ==> #[trigger] agents@[k] == s[k],
        decreases n - i,
    {
        let a = agents[i];
        proof {
            lemma_shift_bounds(a.velocity.x as int, dt_ms as int);
            lemma_shift_bounds(a.velocity.y as int, dt_ms as int);
        }
        let dx = if a.velocity.x >= 0 {
            a.velocity.x * dt_ms / MS_PER_SECOND
        } else {
            -((-a.velocity.x) * dt_ms / MS_PER_SECOND)
        };
        let dy = if a.velocity.y >= 0 {
            a.velocity.y * dt_ms / MS_PER_SECOND
        } else {
            -((-a.velocity.y) * dt_ms / MS_PER_SECOND)
        };
        let mut a2 = a;
        a2.position = Vec2 { x: a.position.x + dx, y: a.position.y + dy };
        agents[i] = a2;
        i = i + 1;
    }
    proof {
        assert(agents@ =~= spec_integrate(s, dt_ms as int));
    }
}

/// The far boundary for an agent: beyond it (accounting for half its
/// length) the agent has left the arena.
pub open spec fn spec_wrap_threshold(a: DriverAgent) -> int {
    TOP_WALL - a.size.y as int / 2
}

/// What wrap-around does to one agent: a position past the far boundary is
/// reset to the near boundary, again accounting for half the agent's
/// length.
pub open spec fn spec_wrap_agent(a: DriverAgent) -> DriverAgent {
    if a.position.y > spec_wrap_threshold(a) {
        DriverAgent {
            position: Vec2 {
                x: a.position.x,
                y: (BOTTOM_WALL + a.size.y as int / 2) as i64,
            },
            ..a
        }
    } else {
        a
    }
}

/// The whole wrap stage as a function on the agent collection.
pub open spec fn spec_wrap(s: Seq<DriverAgent>) -> Seq<DriverAgent> {
    Seq::new(s.len(), |i: int| spec_wrap_agent(s[i]))
}

/// Wrap-around is sharp and idempotent at the boundary: an agent exactly
/// at the far boundary minus half its length stays put, anything past
/// that wraps to the near boundary, and a wrapped agent never wraps again.
pub proof fn lemma_wrap_boundary(a: DriverAgent)
    requires
        0 <= a.size.y <= 100_000,
    ensures
        a.position.y <= spec_wrap_threshold(a) ==> spec_wrap_agent(a) == a,
        a.position.y > spec_wrap_threshold(a)
            ==> spec_wrap_agent(a).position.y == BOTTOM_WALL + a.size.y as int / 2,
        spec_wrap_agent(spec_wrap_agent(a)) == spec_wrap_agent(a),
{
}

/// Reset every agent that has crossed the far boundary of the arena back
/// to its near boundary.
pub fn wrap_position(agents: &mut Vec<DriverAgent>)
    requires
        forall|i: int| 0 <= i < old(agents)@.len() ==> {
            let a = #[trigger] old(agents)@[i];
            &&& -1_100_000_000 <= a.position.y <= 1_100_000_000
            &&& 0 <= a.size.y <= 100_000
        },
    ensures
        final(agents)@ =~= spec_wrap(old(agents)@),
{
    let ghost s = agents@;
    let n = agents.len();
    let mut i: usize = 0;
    while i < n
        invariant
            0 <= i <= n,
            n == s.len(),
            agents@.len() == s.len(),
            forall|k: int| 0 <= k < n as int ==> {
                let a = #[trigger] s[k];
                &&& -1_100_000_000 <= a.position.y <= 1_100_000_000
                &&& 0 <= a.size.y <= 100_000
            },
            forall|k: int| 0 <= k < i as int
                ==> #[trigger] agents@[k] == spec_wrap_agent(s[k]),
            forall|k: int| i as int <= k < n as int ==> #[trigger] agents@[k] == s[k],
        decreases n - i,
    {
        let a = agents[i];
        if a.position.y > TOP_WALL - a.size.y / 2 {
            let mut a2 = a;
            a2.position = Vec2 { x: a.position.x, y: BOTTOM_WALL + a.size.y / 2 };
            agents[i] = a2;
        }
        i = i + 1;
    }
    proof {
        assert(agents@ =~= spec_wrap(s));
    }
}

} // verus!
