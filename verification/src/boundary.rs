//! The boundary: the operations that callers see.
//!
//! Each operation validates its arguments in a fixed order, reaches for the
//! world map only once they passed, and records its outcome in the
//! last-error slot: the status it returns together with a message. The
//! order of the checks is part of the interface, and the functions named
//! `..._verdict` and `..._fault` spell it out.

use crate::error_channel::{ascii_encoded_len, clear_error, set_error, LastError};
use crate::integrator::{advances_to, integrate, is_total, Op};
use crate::registry::{Registry, RegistryView, World};
use crate::scalar::{
    at_most_zero,
    finite,
    is_at_most_zero,
    is_finite,
    is_finite_positive,
    ZERO_BITS,
};
use crate::status::{
    INTERNAL_ERROR,
    INVALID_ARGUMENT,
    INVALID_HANDLE,
    MAX_STEPS,
    OK,
    POLICY_DENIED,
};
use vstd::prelude::*;
use vstd::utf8::encode_utf8;

verus! {

/// What is wrong with a step length, if anything: it must be finite, and
/// then it must be greater than zero.
pub open spec fn dt_fault(dt: u64) -> Option<(i32, Seq<char>)> {
    if !is_finite(dt) {
        Some((INVALID_ARGUMENT, "dt must be finite"@))
    } else if is_at_most_zero(dt) {
        Some((INVALID_ARGUMENT, "dt must be positive"@))
    } else {
        None
    }
}

/// What is wrong with a step count, if anything: zero is malformed, and a
/// count above `MAX_STEPS` is well formed but denied.
pub open spec fn steps_fault(steps: u32) -> Option<(i32, Seq<char>)> {
    if steps == 0 {
        Some((INVALID_ARGUMENT, "steps must be > 0"@))
    } else if steps > MAX_STEPS {
        Some((POLICY_DENIED, "steps exceeds limit"@))
    } else {
        None
    }
}

/// What keeps a world from being created, if anything. The initial position
/// and velocity must be finite; then a handle must be left to issue; then
/// the world map must be reachable.
pub open spec fn create_fault(registry: RegistryView, y0: u64, vy0: u64) -> Option<
    (i32, Seq<char>),
> {
    if !is_finite(y0) || !is_finite(vy0) {
        Some((INVALID_ARGUMENT, "y0 and vy0 must be finite"@))
    } else if registry.is_exhausted() {
        Some((INTERNAL_ERROR, "handle space exhausted"@))
    } else if registry.poisoned {
        Some((INTERNAL_ERROR, "failed to lock worlds"@))
    } else {
        None
    }
}

/// The outcome of destroying the world under `handle`.
pub open spec fn destroy_verdict(registry: RegistryView, handle: u64) -> (i32, Seq<char>) {
    if handle == 0 {
        (INVALID_HANDLE, "invalid handle"@)
    } else if registry.poisoned {
        (INTERNAL_ERROR, "failed to lock worlds"@)
    } else if !registry.is_live(handle) {
        (INVALID_HANDLE, "unknown handle"@)
    } else {
        (OK, Seq::empty())
    }
}

/// The outcome of a request to advance the world under `handle`. The handle
/// must not be zero; then the step length is checked, then the step count;
/// only then is the world map reached for and the handle looked up.
pub open spec fn step_verdict(registry: RegistryView, handle: u64, dt: u64, steps: u32) -> (
    i32,
    Seq<char>,
) {
    if handle == 0 {
        (INVALID_HANDLE, "invalid handle"@)
    } else if dt_fault(dt) is Some {
        dt_fault(dt)->0
    } else if steps_fault(steps) is Some {
        steps_fault(steps)->0
    } else if registry.poisoned {
        (INTERNAL_ERROR, "failed to lock worlds"@)
    } else if !registry.is_live(handle) {
        (INVALID_HANDLE, "unknown handle"@)
    } else {
        (OK, Seq::empty())
    }
}

/// The outcome of a request to read the world under `handle`, where
/// `outputs_present` says that all three output slots were supplied.
pub open spec fn state_verdict(registry: RegistryView, handle: u64, outputs_present: bool) -> (
    i32,
    Seq<char>,
) {
    if handle == 0 {
        (INVALID_HANDLE, "invalid handle"@)
    } else if !outputs_present {
        (INVALID_ARGUMENT, "output pointers must be non-null"@)
    } else if registry.poisoned {
        (INTERNAL_ERROR, "failed to lock worlds"@)
    } else if !registry.is_live(handle) {
        (INVALID_HANDLE, "unknown handle"@)
    } else {
        (OK, Seq::empty())
    }
}

/// A retired handle is refused for good. Take a state in which `handle` is
/// retired and any state that succeeds it and can be reached. There every
/// operation on `handle` whose other arguments are in order reports
/// `INVALID_HANDLE`.
pub proof fn retired_handle_is_refused(
    earlier: RegistryView,
    later: RegistryView,
    handle: u64,
    dt: u64,
    steps: u32,
)
    requires
        later.succeeds(earlier),
        earlier.is_retired(handle),
        !later.poisoned,
        dt_fault(dt) is None,
        steps_fault(steps) is None,
    ensures
        destroy_verdict(later, handle).0 == INVALID_HANDLE,
        step_verdict(later, handle, dt, steps).0 == INVALID_HANDLE,
        state_verdict(later, handle, true).0 == INVALID_HANDLE,
{
}

/// A handle that a creation returned differs from every handle returned
/// before it: those were issued already, and a creation returns the first
/// handle that was not.
pub proof fn created_handle_is_fresh(before: RegistryView, y0: u64, vy0: u64, earlier_handle: u64)
    requires
        before.wf(),
        create_fault(before, y0, vy0) is None,
        before.was_issued(earlier_handle),
    ensures
        before.next_handle != 0,
        before.next_handle != earlier_handle,
        !before.is_live(before.next_handle),
        before.after_issue().was_issued(before.next_handle),
        before.after_issue().was_issued(earlier_handle),
{
}

/// Every message that the boundary records is short enough for the slot.
proof fn messages_fit()
    ensures
        encode_utf8("dt must be finite"@).len() <= u32::MAX,
        encode_utf8("dt must be positive"@).len() <= u32::MAX,
        encode_utf8("steps must be > 0"@).len() <= u32::MAX,
        encode_utf8("steps exceeds limit"@).len() <= u32::MAX,
        encode_utf8("y0 and vy0 must be finite"@).len() <= u32::MAX,
        encode_utf8("handle space exhausted"@).len() <= u32::MAX,
        encode_utf8("failed to lock worlds"@).len() <= u32::MAX,
        encode_utf8("invalid handle"@).len() <= u32::MAX,
        encode_utf8("unknown handle"@).len() <= u32::MAX,
        encode_utf8("output pointers must be non-null"@).len() <= u32::MAX,
{
    reveal_strlit("dt must be finite");
    ascii_encoded_len("dt must be finite"@);
    reveal_strlit("dt must be positive");
    ascii_encoded_len("dt must be positive"@);
    reveal_strlit("steps must be > 0");
    ascii_encoded_len("steps must be > 0"@);
    reveal_strlit("steps exceeds limit");
    ascii_encoded_len("steps exceeds limit"@);
    reveal_strlit("y0 and vy0 must be finite");
    ascii_encoded_len("y0 and vy0 must be finite"@);
    reveal_strlit("handle space exhausted");
    ascii_encoded_len("handle space exhausted"@);
    reveal_strlit("failed to lock worlds");
    ascii_encoded_len("failed to lock worlds"@);
    reveal_strlit("invalid handle");
    ascii_encoded_len("invalid handle"@);
    reveal_strlit("unknown handle");
    ascii_encoded_len("unknown handle"@);
    reveal_strlit("output pointers must be non-null");
    ascii_encoded_len("output pointers must be non-null"@);
}

/// Checks a step length and records what is wrong with it, if anything.
pub fn validate_dt(errors: &mut LastError, dt: u64) -> (checked: Result<(), i32>)
    requires
        old(errors)@.wf(),
    ensures
        final(errors)@.wf(),
        checked is Ok <==> is_finite_positive(dt),
        match dt_fault(dt) {
            Some(fault) => checked == Err::<(), i32>(fault.0) && final(errors)@ == old(
                errors,
            )@.recorded(fault.0, fault.1),
            None => checked == Ok::<(), i32>(()) && final(errors)@ == old(errors)@,
        },
{
    proof {
        messages_fit();
    }
    if !finite(dt) {
        return Err(set_error(errors, INVALID_ARGUMENT, "dt must be finite"));
    }
    if at_most_zero(dt) {
        return Err(set_error(errors, INVALID_ARGUMENT, "dt must be positive"));
    }
    Ok(())
}

/// Checks a step count and records what is wrong with it, if anything.
pub fn validate_steps(errors: &mut LastError, steps: u32) -> (checked: Result<(), i32>)
    requires
        old(errors)@.wf(),
    ensures
        final(errors)@.wf(),
        match steps_fault(steps) {
            Some(fault) => checked == Err::<(), i32>(fault.0) && final(errors)@ == old(
                errors,
            )@.recorded(fault.0, fault.1),
            None => checked == Ok::<(), i32>(()) && final(errors)@ == old(errors)@,
        },
{
    proof {
        messages_fit();
    }
    if steps == 0 {
        return Err(set_error(errors, INVALID_ARGUMENT, "steps must be > 0"));
    }
    if steps > MAX_STEPS {
        return Err(set_error(errors, POLICY_DENIED, "steps exceeds limit"));
    }
    Ok(())
}

/// Reaches for the world map, and records an internal error where it cannot
/// be reached.
pub fn world_map(registry: &Registry, errors: &mut LastError) -> (reached: Result<(), i32>)
    requires
        old(errors)@.wf(),
    ensures
        final(errors)@.wf(),
        registry@.poisoned ==> reached == Err::<(), i32>(INTERNAL_ERROR) && final(errors)@ == old(
            errors,
        )@.recorded(INTERNAL_ERROR, "failed to lock worlds"@),
        !registry@.poisoned ==> reached == Ok::<(), i32>(()) && final(errors)@ == old(errors)@,
{
    proof {
        messages_fit();
    }
    if registry.is_poisoned() {
        return Err(set_error(errors, INTERNAL_ERROR, "failed to lock worlds"));
    }
    Ok(())
}

/// Creates a world at rest in time, at position `y0` with velocity `vy0`,
/// and returns its handle, or zero where no world was created.
///
/// A new world gets the handle that the counter shows, and the counter
/// moves on. The counter also moves on where the handle was taken and the
/// world map then proved unreachable.
pub fn pl_world_create(registry: &mut Registry, errors: &mut LastError, y0: u64, vy0: u64) -> (handle:
    u64)
    requires
        old(registry)@.wf(),
        old(errors)@.wf(),
    ensures
        final(registry)@.wf(),
        final(errors)@.wf(),
        final(registry)@.succeeds(old(registry)@),
        handle != 0 <==> create_fault(old(registry)@, y0, vy0) is None,
        match create_fault(old(registry)@, y0, vy0) {
            Some(fault) => {
                &&& final(errors)@ == old(errors)@.recorded(fault.0, fault.1)
                &&& final(registry)@ == (if fault.0 == INTERNAL_ERROR && !old(
                    registry,
                )@.is_exhausted() {
                    old(registry)@.after_issue()
                } else {
                    old(registry)@
                })
            },
            None => {
                &&& handle == old(registry)@.next_handle
                &&& final(errors)@ == old(errors)@.cleared()
                &&& final(registry)@ == old(registry)@.after_issue().with_world(
                    handle,
                    World { t: ZERO_BITS, y: y0, vy: vy0 },
                )
            },
        },
{
    proof {
        messages_fit();
    }
    if !finite(y0) || !finite(vy0) {
        set_error(errors, INVALID_ARGUMENT, "y0 and vy0 must be finite");
        return 0;
    }
    clear_error(errors);
    let handle: u64 = match registry.issue_handle() {
        Some(handle) => handle,
        None => {
            set_error(errors, INTERNAL_ERROR, "handle space exhausted");
            return 0;
        },
    };
    let world = World { t: ZERO_BITS, y: y0, vy: vy0 };
    match world_map(registry, errors) {
        Ok(_) => {
            registry.store(handle, world);
            handle
        },
        Err(_) => 0,
    }
}

/// Destroys the world under `handle`. The outcome is recorded in the
/// last-error slot and nowhere else.
pub fn pl_world_destroy(registry: &mut Registry, errors: &mut LastError, handle: u64)
    requires
        old(registry)@.wf(),
        old(errors)@.wf(),
    ensures
        final(registry)@.wf(),
        final(errors)@.wf(),
        final(registry)@.succeeds(old(registry)@),
        final(errors)@ == old(errors)@.recorded(
            destroy_verdict(old(registry)@, handle).0,
            destroy_verdict(old(registry)@, handle).1,
        ),
        final(registry)@ == (if destroy_verdict(old(registry)@, handle).0 == OK {
            old(registry)@.without(handle)
        } else {
            old(registry)@
        }),
        destroy_verdict(old(registry)@, handle).0 == OK ==> final(registry)@.is_retired(handle),
{
    proof {
        messages_fit();
    }
    if handle == 0 {
        set_error(errors, INVALID_HANDLE, "invalid handle");
        return ;
    }
    match world_map(registry, errors) {
        Ok(_) => {
            if registry.remove(handle) {
                clear_error(errors);
            } else {
                set_error(errors, INVALID_HANDLE, "unknown handle");
            }
        },
        Err(_) => {},
    }
}

/// Advances the world under `handle` by `steps` steps of length `dt` and
/// returns the status.
///
/// On success the world is replaced by a state that `steps` steps lead to
/// from the one it had, and no other world changes. On any failure the
/// registry is left as it was.
pub fn pl_world_step<F: Fn(Op, u64, u64) -> u64>(
    registry: &mut Registry,
    errors: &mut LastError,
    handle: u64,
    dt: u64,
    steps: u32,
    alu: F,
) -> (status: i32)
    requires
        old(registry)@.wf(),
        old(errors)@.wf(),
        is_total(alu),
    ensures
        final(registry)@.wf(),
        final(errors)@.wf(),
        final(registry)@.succeeds(old(registry)@),
        status == step_verdict(old(registry)@, handle, dt, steps).0,
        final(errors)@ == old(errors)@.recorded(
            status,
            step_verdict(old(registry)@, handle, dt, steps).1,
        ),
        status != OK ==> final(registry)@ == old(registry)@,
        status == OK ==> {
            &&& final(registry)@ == old(registry)@.with_world(
                handle,
                final(registry)@.worlds[handle],
            )
            &&& advances_to(
                alu,
                dt,
                old(registry)@.worlds[handle],
                steps as nat,
                final(registry)@.worlds[handle],
            )
        },
{
    proof {
        messages_fit();
    }
    if handle == 0 {
        return set_error(errors, INVALID_HANDLE, "invalid handle");
    }
    if let Err(code) = validate_dt(errors, dt) {
        return code;
    }
    if let Err(code) = validate_steps(errors, steps) {
        return code;
    }
    if let Err(code) = world_map(registry, errors) {
        return code;
    }
    let world: World = match registry.lookup(handle) {
        Some(world) => world,
        None => {
            return set_error(errors, INVALID_HANDLE, "unknown handle");
        },
    };
    let end: World = integrate(&alu, world, dt, steps);
    registry.store(handle, end);
    clear_error(errors);
    OK
}

/// Reads the world under `handle` into the three output slots and returns
/// the status.
///
/// The slots are written on success only, and then all three: on every
/// failure each slot that was supplied holds what it held before.
pub fn pl_world_get_state(
    registry: &Registry,
    errors: &mut LastError,
    handle: u64,
    out_t: Option<&mut u64>,
    out_y: Option<&mut u64>,
    out_vy: Option<&mut u64>,
) -> (status: i32)
    requires
        old(errors)@.wf(),
    ensures
        final(errors)@.wf(),
        status == state_verdict(
            registry@,
            handle,
            out_t is Some && out_y is Some && out_vy is Some,
        ).0,
        final(errors)@ == old(errors)@.recorded(
            status,
            state_verdict(registry@, handle, out_t is Some && out_y is Some && out_vy is Some).1,
        ),
        out_t is Some ==> *final(out_t->0) == (if status == OK {
            registry@.worlds[handle].t
        } else {
            *old(out_t->0)
        }),
        out_y is Some ==> *final(out_y->0) == (if status == OK {
            registry@.worlds[handle].y
        } else {
            *old(out_y->0)
        }),
        out_vy is Some ==> *final(out_vy->0) == (if status == OK {
            registry@.worlds[handle].vy
        } else {
            *old(out_vy->0)
        }),
{
    proof {
        messages_fit();
    }
    if handle == 0 {
        return set_error(errors, INVALID_HANDLE, "invalid handle");
    }
    match (out_t, out_y, out_vy) {
        (Some(slot_t), Some(slot_y), Some(slot_vy)) => {
            if let Err(code) = world_map(registry, errors) {
                return code;
            }
            let world: World = match registry.lookup(handle) {
                Some(world) => world,
                None => {
                    return set_error(errors, INVALID_HANDLE, "unknown handle");
                },
            };
            *slot_t = world.t;
            *slot_y = world.y;
            *slot_vy = world.vy;
            clear_error(errors);
            OK
        },
        _ => set_error(errors, INVALID_ARGUMENT, "output pointers must be non-null"),
    }
}

} // verus!
