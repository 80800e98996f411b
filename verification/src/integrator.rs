//! The integrator: semi-implicit Euler steps of a world under gravity.
//!
//! One step takes the velocity first and the position from the new velocity:
//!
//! ```text
//! vy' = vy - G * dt
//! y'  = y + vy' * dt
//! t'  = t + dt
//! ```
//!
//! The three arithmetic operations are binary64 operations on bit patterns.
//! They are supplied by the caller as one function, the arithmetic unit, and
//! the integrator is described relative to what that function guarantees.

use crate::registry::World;
use crate::scalar::G_BITS;
use vstd::prelude::*;

verus! {

/// A binary64 operation that the arithmetic unit carries out.
#[derive(Clone, Copy, Debug, PartialEq, Eq, Structural)]
pub enum Op {
    /// `a + b`
    Add,
    /// `a - b`
    Sub,
    /// `a * b`
    Mul,
}

/// The arithmetic unit accepts every operation on every pair of patterns.
pub open spec fn is_total<F: Fn(Op, u64, u64) -> u64>(alu: F) -> bool {
    forall|op: Op, a: u64, b: u64| #[trigger] alu.requires((op, a, b))
}

/// The arithmetic unit yields one result for each operation and operands.
pub open spec fn is_deterministic<F: Fn(Op, u64, u64) -> u64>(alu: F) -> bool {
    forall|op: Op, a: u64, b: u64, r1: u64, r2: u64|
        #![trigger alu.ensures((op, a, b), r1), alu.ensures((op, a, b), r2)]
        alu.ensures((op, a, b), r1) && alu.ensures((op, a, b), r2) ==> r1 == r2
}

/// `next` is a state that one step of length `dt` can lead to from `world`:
/// the velocity drops by `G * dt`, the position moves by the new velocity
/// times `dt`, and the time grows by `dt`.
pub open spec fn steps_to<F: Fn(Op, u64, u64) -> u64>(
    alu: F,
    dt: u64,
    world: World,
    next: World,
) -> bool {
    exists|drop: u64, rise: u64|
        #![trigger alu.ensures((Op::Sub, world.vy, drop), next.vy), alu.ensures((Op::Add, world.y, rise), next.y)]
        {
            &&& alu.ensures((Op::Mul, G_BITS, dt), drop)
            &&& alu.ensures((Op::Sub, world.vy, drop), next.vy)
            &&& alu.ensures((Op::Mul, next.vy, dt), rise)
            &&& alu.ensures((Op::Add, world.y, rise), next.y)
            &&& alu.ensures((Op::Add, world.t, dt), next.t)
        }
}

/// `end` is a state that `n` steps of length `dt` can lead to from `start`.
pub open spec fn advances_to<F: Fn(Op, u64, u64) -> u64>(
    alu: F,
    dt: u64,
    start: World,
    n: nat,
    end: World,
) -> bool
    decreases n,
{
    if n == 0 {
        end == start
    } else {
        exists|mid: World|
            #![trigger steps_to(alu, dt, mid, end)]
            advances_to(alu, dt, start, (n - 1) as nat, mid) && steps_to(alu, dt, mid, end)
    }
}

/// Takes one step of length `dt`.
pub fn euler_step<F: Fn(Op, u64, u64) -> u64>(alu: &F, world: World, dt: u64) -> (next: World)
    requires
        is_total(*alu),
    ensures
        steps_to(*alu, dt, world, next),
{
    let drop: u64 = alu(Op::Mul, G_BITS, dt);
    let vy: u64 = alu(Op::Sub, world.vy, drop);
    let rise: u64 = alu(Op::Mul, vy, dt);
    let y: u64 = alu(Op::Add, world.y, rise);
    let t: u64 = alu(Op::Add, world.t, dt);
    let next = World { t, y, vy };
    assert(alu.ensures((Op::Sub, world.vy, drop), next.vy) && alu.ensures(
        (Op::Add, world.y, rise),
        next.y,
    ));
    next
}

/// Takes `steps` steps of length `dt`, one after the other.
pub fn integrate<F: Fn(Op, u64, u64) -> u64>(alu: &F, start: World, dt: u64, steps: u32) -> (end:
    World)
    requires
        is_total(*alu),
    ensures
        advances_to(*alu, dt, start, steps as nat, end),
{
    let mut world = start;
    let mut done: u32 = 0;
    while done < steps
        invariant
            done <= steps,
            is_total(*alu),
            advances_to(*alu, dt, start, done as nat, world),
        decreases steps - done,
    {
        let next = euler_step(alu, world, dt);
        assert(steps_to(*alu, dt, world, next));
        world = next;
        done = done + 1;
    }
    world
}

/// With a deterministic arithmetic unit a step has one outcome.
pub proof fn step_is_deterministic<F: Fn(Op, u64, u64) -> u64>(
    alu: F,
    dt: u64,
    world: World,
    a: World,
    b: World,
)
    requires
        is_deterministic(alu),
        steps_to(alu, dt, world, a),
        steps_to(alu, dt, world, b),
    ensures
        a == b,
{
    let (drop_a, rise_a) = choose|drop: u64, rise: u64|
        #![trigger alu.ensures((Op::Sub, world.vy, drop), a.vy), alu.ensures((Op::Add, world.y, rise), a.y)]
        {
            &&& alu.ensures((Op::Mul, G_BITS, dt), drop)
            &&& alu.ensures((Op::Sub, world.vy, drop), a.vy)
            &&& alu.ensures((Op::Mul, a.vy, dt), rise)
            &&& alu.ensures((Op::Add, world.y, rise), a.y)
            &&& alu.ensures((Op::Add, world.t, dt), a.t)
        };
    let (drop_b, rise_b) = choose|drop: u64, rise: u64|
        #![trigger alu.ensures((Op::Sub, world.vy, drop), b.vy), alu.ensures((Op::Add, world.y, rise), b.y)]
        {
            &&& alu.ensures((Op::Mul, G_BITS, dt), drop)
            &&& alu.ensures((Op::Sub, world.vy, drop), b.vy)
            &&& alu.ensures((Op::Mul, b.vy, dt), rise)
            &&& alu.ensures((Op::Add, world.y, rise), b.y)
            &&& alu.ensures((Op::Add, world.t, dt), b.t)
        };
    assert(drop_a == drop_b);
    assert(rise_a == rise_b);
}

/// Integration is reproducible: with a deterministic arithmetic unit, equal
/// starting states, step lengths and step counts lead to equal final states.
pub proof fn integration_is_deterministic<F: Fn(Op, u64, u64) -> u64>(
    alu: F,
    dt: u64,
    start: World,
    n: nat,
    a: World,
    b: World,
)
    requires
        is_deterministic(alu),
        advances_to(alu, dt, start, n, a),
        advances_to(alu, dt, start, n, b),
    ensures
        a == b,
    decreases n,
{
    if n > 0 {
        let mid_a = choose|mid: World|
            #![trigger steps_to(alu, dt, mid, a)]
            advances_to(alu, dt, start, (n - 1) as nat, mid) && steps_to(alu, dt, mid, a);
        let mid_b = choose|mid: World|
            #![trigger steps_to(alu, dt, mid, b)]
            advances_to(alu, dt, start, (n - 1) as nat, mid) && steps_to(alu, dt, mid, b);
        integration_is_deterministic(alu, dt, start, (n - 1) as nat, mid_a, mid_b);
        step_is_deterministic(alu, dt, mid_a, a, b);
    }
}

} // verus!
