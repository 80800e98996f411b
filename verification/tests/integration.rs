use physicslab_kernel::boundary::{
    pl_world_create, pl_world_destroy, pl_world_get_state, pl_world_step,
};
use physicslab_kernel::error_channel::{pl_last_error_code, pl_last_error_message, LastError};
use physicslab_kernel::integrator::Op;
use physicslab_kernel::registry::Registry;
use physicslab_kernel::status::{
    INTERNAL_ERROR, INVALID_ARGUMENT, INVALID_HANDLE, MAX_STEPS, OK, POLICY_DENIED,
};

fn alu(op: Op, a: u64, b: u64) -> u64 {
    let x = f64::from_bits(a);
    let y = f64::from_bits(b);
    let r = match op {
        Op::Add => x + y,
        Op::Sub => x - y,
        Op::Mul => x * y,
    };
    r.to_bits()
}

struct Kernel {
    worlds: Registry,
    errors: LastError,
}

fn kernel() -> Kernel {
    Kernel { worlds: Registry::new(), errors: LastError::new() }
}

fn create(k: &mut Kernel, y0: f64, vy0: f64) -> u64 {
    pl_world_create(&mut k.worlds, &mut k.errors, y0.to_bits(), vy0.to_bits())
}

fn step(k: &mut Kernel, handle: u64, dt: f64, steps: u32) -> i32 {
    pl_world_step(&mut k.worlds, &mut k.errors, handle, dt.to_bits(), steps, alu)
}

fn get_state(k: &mut Kernel, handle: u64) -> (i32, f64, f64, f64) {
    let mut t = 0u64;
    let mut y = 0u64;
    let mut vy = 0u64;
    let status = pl_world_get_state(
        &k.worlds,
        &mut k.errors,
        handle,
        Some(&mut t),
        Some(&mut y),
        Some(&mut vy),
    );
    (status, f64::from_bits(t), f64::from_bits(y), f64::from_bits(vy))
}

fn message(errors: &LastError) -> String {
    let mut buf = vec![0u8; 256];
    let needed = pl_last_error_message(errors, Some(&mut buf[..])) as usize;
    assert!(needed < buf.len());
    assert_eq!(buf[needed], 0);
    String::from_utf8(buf[..needed].to_vec()).unwrap()
}

fn run_sim(k: &mut Kernel, y0: f64, vy0: f64, dt: f64, steps: u32) -> (f64, f64, f64) {
    let handle = create(k, y0, vy0);
    assert_ne!(handle, 0);
    let status = step(k, handle, dt, steps);
    assert_eq!(status, OK);
    let (status_state, t, y, vy) = get_state(k, handle);
    assert_eq!(status_state, OK);
    pl_world_destroy(&mut k.worlds, &mut k.errors, handle);
    (t, y, vy)
}

#[test]
fn determinism_same_inputs_same_outputs() {
    let mut k = kernel();
    let a = run_sim(&mut k, 10.0, 0.0, 0.1, 50);
    let b = run_sim(&mut k, 10.0, 0.0, 0.1, 50);
    assert!((a.0 - b.0).abs() < 1e-12);
    assert!((a.1 - b.1).abs() < 1e-9);
    assert!((a.2 - b.2).abs() < 1e-9);
}

#[test]
fn invalid_dt_rejected() {
    let mut k = kernel();
    let handle = create(&mut k, 0.0, 0.0);
    assert_ne!(handle, 0);
    let status = step(&mut k, handle, 0.0, 1);
    assert_eq!(status, INVALID_ARGUMENT);
    assert_eq!(pl_last_error_code(&k.errors), INVALID_ARGUMENT);
    pl_world_destroy(&mut k.worlds, &mut k.errors, handle);
}

#[test]
fn determinism_is_bit_exact_across_registries() {
    let mut first = kernel();
    let mut second = kernel();
    let a = run_sim(&mut first, 3.25, -1.5, 0.01, 10_000);
    let b = run_sim(&mut second, 3.25, -1.5, 0.01, 10_000);
    assert_eq!(a.0.to_bits(), b.0.to_bits());
    assert_eq!(a.1.to_bits(), b.1.to_bits());
    assert_eq!(a.2.to_bits(), b.2.to_bits());
}

#[test]
fn sequential_creates_return_distinct_nonzero_handles() {
    let mut k = kernel();
    let mut seen: Vec<u64> = Vec::new();
    for i in 0..100u64 {
        let handle = create(&mut k, i as f64, 0.0);
        assert_ne!(handle, 0);
        assert!(!seen.contains(&handle));
        assert_eq!(handle, i + 1);
        seen.push(handle);
    }
}

#[test]
fn handles_are_not_reused_after_destroy() {
    let mut k = kernel();
    let first = create(&mut k, 1.0, 0.0);
    pl_world_destroy(&mut k.worlds, &mut k.errors, first);
    assert_eq!(pl_last_error_code(&k.errors), OK);
    let second = create(&mut k, 1.0, 0.0);
    assert_ne!(second, 0);
    assert_ne!(second, first);
    assert!(second > first);
    assert_eq!(get_state(&mut k, first).0, INVALID_HANDLE);
    assert_eq!(get_state(&mut k, second).0, OK);
}

#[test]
fn destroyed_handle_is_invalid_in_every_operation() {
    let mut k = kernel();
    let handle = create(&mut k, 1.0, 2.0);
    let other = create(&mut k, 3.0, 4.0);
    pl_world_destroy(&mut k.worlds, &mut k.errors, handle);
    assert_eq!(pl_last_error_code(&k.errors), OK);

    assert_eq!(step(&mut k, handle, 0.1, 1), INVALID_HANDLE);
    assert_eq!(pl_last_error_code(&k.errors), INVALID_HANDLE);
    assert_eq!(message(&k.errors), "unknown handle");

    assert_eq!(get_state(&mut k, handle).0, INVALID_HANDLE);
    assert_eq!(message(&k.errors), "unknown handle");

    assert_eq!(step(&mut k, other, 0.1, 1), OK);
    pl_world_destroy(&mut k.worlds, &mut k.errors, handle);
    assert_eq!(pl_last_error_code(&k.errors), INVALID_HANDLE);
    assert_eq!(message(&k.errors), "unknown handle");

    assert_eq!(get_state(&mut k, other).0, OK);
}

#[test]
fn zero_handle_is_invalid_in_every_operation() {
    let mut k = kernel();
    let _ = create(&mut k, 1.0, 2.0);
    assert_eq!(step(&mut k, 0, 0.1, 1), INVALID_HANDLE);
    assert_eq!(message(&k.errors), "invalid handle");
    assert_eq!(get_state(&mut k, 0).0, INVALID_HANDLE);
    assert_eq!(message(&k.errors), "invalid handle");
    assert_eq!(step(&mut k, 1, 0.1, 1), OK);
    pl_world_destroy(&mut k.worlds, &mut k.errors, 0);
    assert_eq!(pl_last_error_code(&k.errors), INVALID_HANDLE);
    assert_eq!(message(&k.errors), "invalid handle");
}

#[test]
fn never_issued_handle_is_unknown() {
    let mut k = kernel();
    let handle = create(&mut k, 1.0, 2.0);
    assert_eq!(step(&mut k, handle + 1, 0.1, 1), INVALID_HANDLE);
    assert_eq!(message(&k.errors), "unknown handle");
    assert_eq!(get_state(&mut k, u64::MAX).0, INVALID_HANDLE);
}

#[test]
fn step_arguments_are_checked_in_order() {
    let mut k = kernel();
    let h = create(&mut k, 0.0, 0.0);

    assert_eq!(step(&mut k, h, 0.0, 1), INVALID_ARGUMENT);
    assert_eq!(message(&k.errors), "dt must be positive");
    assert_eq!(step(&mut k, h, 0.1, 0), INVALID_ARGUMENT);
    assert_eq!(message(&k.errors), "steps must be > 0");
    assert_eq!(step(&mut k, h, 0.1, 10_001), POLICY_DENIED);
    assert_eq!(pl_last_error_code(&k.errors), POLICY_DENIED);
    assert_eq!(message(&k.errors), "steps exceeds limit");
    assert_eq!(step(&mut k, h, 0.1, MAX_STEPS), OK);
    assert_eq!(pl_last_error_code(&k.errors), OK);
    assert_eq!(message(&k.errors), "");

    // The handle is looked at for zero first, the step length next, the step
    // count after it, and the registry last.
    assert_eq!(step(&mut k, 0, f64::NAN, 0), INVALID_HANDLE);
    assert_eq!(step(&mut k, 999, f64::NAN, 0), INVALID_ARGUMENT);
    assert_eq!(message(&k.errors), "dt must be finite");
    assert_eq!(step(&mut k, 999, -1.0, 0), INVALID_ARGUMENT);
    assert_eq!(message(&k.errors), "dt must be positive");
    assert_eq!(step(&mut k, 999, 1.0, 0), INVALID_ARGUMENT);
    assert_eq!(message(&k.errors), "steps must be > 0");
    assert_eq!(step(&mut k, 999, 1.0, u32::MAX), POLICY_DENIED);
    assert_eq!(step(&mut k, 999, 1.0, 1), INVALID_HANDLE);
    assert_eq!(message(&k.errors), "unknown handle");
}

#[test]
fn step_rejects_every_bad_step_length() {
    let mut k = kernel();
    let h = create(&mut k, 0.0, 0.0);
    for dt in [f64::NAN, f64::INFINITY, f64::NEG_INFINITY] {
        assert_eq!(step(&mut k, h, dt, 1), INVALID_ARGUMENT);
        assert_eq!(message(&k.errors), "dt must be finite");
    }
    for dt in [0.0, -0.0, -1.0, -f64::MIN_POSITIVE, f64::MIN] {
        assert_eq!(step(&mut k, h, dt, 1), INVALID_ARGUMENT);
        assert_eq!(message(&k.errors), "dt must be positive");
    }
    for dt in [f64::from_bits(1), f64::MIN_POSITIVE, 1.0, f64::MAX] {
        assert_eq!(step(&mut k, h, dt, 1), OK);
    }
}

#[test]
fn failed_step_leaves_world_untouched() {
    let mut k = kernel();
    let h = create(&mut k, 7.0, -3.0);
    assert_eq!(step(&mut k, h, 0.1, 0), INVALID_ARGUMENT);
    assert_eq!(step(&mut k, h, f64::NAN, 5), INVALID_ARGUMENT);
    assert_eq!(step(&mut k, h, 0.1, 20_000), POLICY_DENIED);
    let (status, t, y, vy) = get_state(&mut k, h);
    assert_eq!(status, OK);
    assert_eq!((t, y, vy), (0.0, 7.0, -3.0));
}

#[test]
fn create_rejects_non_finite_inputs() {
    let mut k = kernel();
    assert_eq!(create(&mut k, f64::NAN, 0.0), 0);
    assert_eq!(pl_last_error_code(&k.errors), INVALID_ARGUMENT);
    assert_eq!(message(&k.errors), "y0 and vy0 must be finite");
    assert_eq!(create(&mut k, 0.0, f64::NAN), 0);
    assert_eq!(create(&mut k, f64::INFINITY, 0.0), 0);
    assert_eq!(create(&mut k, 0.0, f64::NEG_INFINITY), 0);
    assert_eq!(pl_last_error_code(&k.errors), INVALID_ARGUMENT);
    // A rejected creation takes no handle.
    assert_eq!(create(&mut k, 0.0, 0.0), 1);
    assert_eq!(pl_last_error_code(&k.errors), OK);
}

#[test]
fn created_world_starts_at_time_zero() {
    let mut k = kernel();
    let h = create(&mut k, -12.5, 4.0);
    let (status, t, y, vy) = get_state(&mut k, h);
    assert_eq!(status, OK);
    assert_eq!(t.to_bits(), 0);
    assert_eq!(y, -12.5);
    assert_eq!(vy, 4.0);
    assert_eq!(k.worlds.lookup(h).map(|w| (w.t, w.y, w.vy)),
        Some((0, (-12.5f64).to_bits(), 4.0f64.to_bits())));
    assert!(k.worlds.lookup(h + 1).is_none());
}

#[test]
fn physics_matches_symplectic_euler() {
    let mut k = kernel();
    let h = create(&mut k, 10.0, 0.0);
    assert_eq!(step(&mut k, h, 0.1, 50), OK);
    let (status, t, y, vy) = get_state(&mut k, h);
    assert_eq!(status, OK);
    assert!((t - 5.0).abs() < 1e-9);
    assert!((vy - (-49.05)).abs() < 1e-9);

    let g = 9.81f64;
    let dt = 0.1f64;
    let (mut et, mut ey, mut evy) = (0.0f64, 10.0f64, 0.0f64);
    for _ in 0..50 {
        evy -= g * dt;
        ey += evy * dt;
        et += dt;
    }
    assert_eq!(t.to_bits(), et.to_bits());
    assert_eq!(y.to_bits(), ey.to_bits());
    assert_eq!(vy.to_bits(), evy.to_bits());

    assert_eq!(t.to_bits(), 0x4013_ffff_ffff_fffe);
    assert_eq!(y.to_bits(), 0xc05c_c4f5_c28f_5c30);
    assert_eq!(vy.to_bits(), 0xc048_8666_6666_666e);
    assert!((y - (-115.0775)).abs() < 1e-9);
}

#[test]
fn steps_accumulate_across_calls() {
    let mut one = kernel();
    let mut two = kernel();
    let a = create(&mut one, 100.0, 2.0);
    let b = create(&mut two, 100.0, 2.0);
    assert_eq!(step(&mut one, a, 0.25, 2), OK);
    assert_eq!(step(&mut two, b, 0.25, 1), OK);
    assert_eq!(step(&mut two, b, 0.25, 1), OK);
    let sa = get_state(&mut one, a);
    let sb = get_state(&mut two, b);
    assert_eq!(sa, sb);
    assert_eq!(sa.1.to_bits(), 0x3fe0_0000_0000_0000);
    assert_eq!(sa.2.to_bits(), 0x4058_ca47_ae14_7ae2);
    assert_eq!(sa.3.to_bits(), 0xc007_3d70_a3d7_0a3e);
}

#[test]
fn step_changes_only_the_named_world() {
    let mut k = kernel();
    let a = create(&mut k, 1.0, 0.0);
    let b = create(&mut k, 2.0, 0.5);
    assert_eq!(step(&mut k, a, 0.5, 3), OK);
    let (status, t, y, vy) = get_state(&mut k, b);
    assert_eq!(status, OK);
    assert_eq!((t, y, vy), (0.0, 2.0, 0.5));
    let (_, ta, _, _) = get_state(&mut k, a);
    assert_eq!(ta, 1.5);
}

#[test]
fn get_state_failure_leaves_outputs_untouched() {
    let mut k = kernel();
    let h = create(&mut k, 1.0, 2.0);
    let (mut t, mut y, mut vy) = (11u64, 22u64, 33u64);

    let status = pl_world_get_state(
        &k.worlds, &mut k.errors, h + 5, Some(&mut t), Some(&mut y), Some(&mut vy));
    assert_eq!(status, INVALID_HANDLE);
    assert_eq!((t, y, vy), (11, 22, 33));

    let status = pl_world_get_state(
        &k.worlds, &mut k.errors, 0, Some(&mut t), Some(&mut y), Some(&mut vy));
    assert_eq!(status, INVALID_HANDLE);
    assert_eq!((t, y, vy), (11, 22, 33));

    let status = pl_world_get_state(&k.worlds, &mut k.errors, h, Some(&mut t), None, Some(&mut vy));
    assert_eq!(status, INVALID_ARGUMENT);
    assert_eq!(message(&k.errors), "output pointers must be non-null");
    assert_eq!((t, y, vy), (11, 22, 33));

    let status = pl_world_get_state(&k.worlds, &mut k.errors, h, None, Some(&mut y), Some(&mut vy));
    assert_eq!(status, INVALID_ARGUMENT);
    let status = pl_world_get_state(&k.worlds, &mut k.errors, h, Some(&mut t), Some(&mut y), None);
    assert_eq!(status, INVALID_ARGUMENT);
    let status = pl_world_get_state(&k.worlds, &mut k.errors, h, None, None, None);
    assert_eq!(status, INVALID_ARGUMENT);
    assert_eq!((t, y, vy), (11, 22, 33));

    // A zero handle is reported before a missing output slot.
    let status = pl_world_get_state(&k.worlds, &mut k.errors, 0, None, None, None);
    assert_eq!(status, INVALID_HANDLE);

    k.worlds.mark_poisoned();
    let status = pl_world_get_state(
        &k.worlds, &mut k.errors, h, Some(&mut t), Some(&mut y), Some(&mut vy));
    assert_eq!(status, INTERNAL_ERROR);
    assert_eq!((t, y, vy), (11, 22, 33));
}

#[test]
fn get_state_does_not_change_the_world() {
    let mut k = kernel();
    let h = create(&mut k, 1.0, 2.0);
    assert_eq!(step(&mut k, h, 0.5, 1), OK);
    let first = get_state(&mut k, h);
    let second = get_state(&mut k, h);
    assert_eq!(first, second);
    assert_eq!(first.0, OK);
    assert_eq!(pl_last_error_code(&k.errors), OK);
}

#[test]
fn success_clears_an_earlier_error() {
    let mut k = kernel();
    let h = create(&mut k, 1.0, 2.0);
    assert_eq!(step(&mut k, h, 0.1, 0), INVALID_ARGUMENT);
    assert_eq!(pl_last_error_code(&k.errors), INVALID_ARGUMENT);
    assert_eq!(get_state(&mut k, h).0, OK);
    assert_eq!(pl_last_error_code(&k.errors), OK);
    assert_eq!(message(&k.errors), "");

    assert_eq!(step(&mut k, h, 0.1, 0), INVALID_ARGUMENT);
    assert_ne!(create(&mut k, 0.0, 0.0), 0);
    assert_eq!(pl_last_error_code(&k.errors), OK);

    assert_eq!(step(&mut k, h, 0.1, 0), INVALID_ARGUMENT);
    pl_world_destroy(&mut k.worlds, &mut k.errors, h);
    assert_eq!(pl_last_error_code(&k.errors), OK);
}

#[test]
fn poisoned_registry_reports_internal_error() {
    let mut k = kernel();
    let h = create(&mut k, 1.0, 2.0);
    assert!(!k.worlds.is_poisoned());
    k.worlds.mark_poisoned();
    assert!(k.worlds.is_poisoned());

    assert_eq!(step(&mut k, h, 0.1, 1), INTERNAL_ERROR);
    assert_eq!(pl_last_error_code(&k.errors), INTERNAL_ERROR);
    assert_eq!(message(&k.errors), "failed to lock worlds");
    assert_eq!(get_state(&mut k, h).0, INTERNAL_ERROR);
    pl_world_destroy(&mut k.worlds, &mut k.errors, h);
    assert_eq!(pl_last_error_code(&k.errors), INTERNAL_ERROR);
    assert_eq!(create(&mut k, 0.0, 0.0), 0);
    assert_eq!(pl_last_error_code(&k.errors), INTERNAL_ERROR);
    assert_eq!(message(&k.errors), "failed to lock worlds");

    // Arguments are still checked before the registry is reached for.
    assert_eq!(step(&mut k, h, 0.0, 1), INVALID_ARGUMENT);
    assert_eq!(step(&mut k, 0, 0.1, 1), INVALID_HANDLE);
    assert_eq!(create(&mut k, f64::NAN, 0.0), 0);
    assert_eq!(pl_last_error_code(&k.errors), INVALID_ARGUMENT);
    // The world is still there.
    assert!(k.worlds.lookup(h).is_some());
}

#[test]
fn handle_space_can_run_out() {
    let mut worlds = Registry::starting_at(u64::MAX - 2);
    let mut errors = LastError::new();
    let one = 1.0f64.to_bits();
    assert_eq!(pl_world_create(&mut worlds, &mut errors, one, one), u64::MAX - 2);
    assert_eq!(pl_world_create(&mut worlds, &mut errors, one, one), u64::MAX - 1);
    assert_eq!(pl_last_error_code(&errors), OK);
    assert_eq!(pl_world_create(&mut worlds, &mut errors, one, one), 0);
    assert_eq!(pl_last_error_code(&errors), INTERNAL_ERROR);
    assert_eq!(message(&errors), "handle space exhausted");
    assert_eq!(pl_world_create(&mut worlds, &mut errors, one, one), 0);
    // The worlds made before are still there.
    assert!(worlds.lookup(u64::MAX - 2).is_some());
    assert!(worlds.lookup(u64::MAX - 1).is_some());
    assert!(worlds.lookup(u64::MAX).is_none());
    assert!(worlds.lookup(0).is_none());
}
