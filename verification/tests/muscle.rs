//! The PD controllers, the muscle system, and the pose generators.

use active_ragdoll::FX_ONE;
use active_ragdoll::FX_PI;
use active_ragdoll::FX_TAU;
use active_ragdoll::fx::fx_mul;
use active_ragdoll::fx::sin_fx;
use active_ragdoll::linalg::Quat;
use active_ragdoll::linalg::Vec3;
use active_ragdoll::muscle::BodyState;
use active_ragdoll::muscle::Muscle;
use active_ragdoll::muscle::MuscleSystem;
use active_ragdoll::muscle::TargetPose;
use active_ragdoll::muscle::WalkCycle;
use active_ragdoll::muscle::smooth_step;
use active_ragdoll::skeleton::BoneId;

fn quat_eq_up_to_sign(a: Quat, b: Quat) -> bool {
    a == b || (a.x == -b.x && a.y == -b.y && a.z == -b.z && a.w == -b.w)
}

#[test]
fn smooth_step_anchors_and_midpoint() {
    assert_eq!(smooth_step(0), 0);
    assert_eq!(smooth_step(FX_ONE), FX_ONE);
    assert_eq!(smooth_step(500_000), 500_000);
    assert_eq!(smooth_step(250_000), 156_250);
    // out-of-range inputs clamp
    assert_eq!(smooth_step(-123), 0);
    assert_eq!(smooth_step(2_000_000), FX_ONE);
}

#[test]
fn relaxed_muscles_produce_no_torque_at_any_error() {
    // tension just under the cutoff: zero output for every input
    let mut m = Muscle::new(BoneId::Spine, 800_000_000, 80_000_000, 500_000_000);
    m.strength = 9_999;
    m.set_target(Quat::from_rotation_x(3_000_000));
    let big_spin = Vec3::new(900_000_000_000, -900_000_000_000, 123_456_789);
    let r = m.calculate_torque(Quat::from_rotation_y(-3_000_000), big_spin);
    assert_eq!(r, Vec3::zero());
    // at the cutoff itself the muscle acts
    m.strength = 10_000;
    let r2 = m.calculate_torque(Quat::from_rotation_y(-3_000_000), big_spin);
    assert!(r2 != Vec3::zero());
}

#[test]
fn torque_magnitude_never_exceeds_the_cap() {
    let mut m = Muscle::new(BoneId::LeftUpperLeg, 1_000_000_000, 100_000_000, 800_000_000);
    m.set_target(Quat::from_rotation_x(2_000_000));
    let cases = [
        (Quat::identity(), Vec3::zero()),
        (Quat::from_rotation_y(-1_500_000), Vec3::new(333_333, -777_777, 123_456)),
        (Quat::from_rotation_z(3_000_000), Vec3::new(-50_000_000, 2_000_000, 9_999_999)),
    ];
    for (rot, vel) in cases {
        let t = m.calculate_torque(rot, vel);
        let m2 = (t.x as i128) * (t.x as i128) + (t.y as i128) * (t.y as i128) + (t.z as i128)
            * (t.z as i128);
        assert!(
            m2 <= 800_000_000i128 * 800_000_000i128,
            "torque ({}, {}, {}) exceeds the cap",
            t.x,
            t.y,
            t.z
        );
    }
}

#[test]
fn pd_law_is_exact_when_uncapped() {
    // kp of 2.0, no damping: axis x, angle 1.0 rad gives exactly 2.0
    let m = Muscle::new(BoneId::Head, 2_000_000, 0, 1_000_000_000);
    let r = m.pd_torque(Vec3::new(FX_ONE, 0, 0), FX_ONE, Vec3::zero());
    assert_eq!(r, Vec3::new(2_000_000, 0, 0));
    // the damping term opposes the spin
    let r2 = m.pd_torque(Vec3::zero(), 0, Vec3::new(500_000, 0, 0));
    assert_eq!(r2, Vec3::zero());
    let md = Muscle::new(BoneId::Head, 0, 1_000_000, 1_000_000_000);
    let r3 = md.pd_torque(Vec3::zero(), 0, Vec3::new(500_000, 0, 0));
    assert_eq!(r3, Vec3::new(-500_000, 0, 0));
}

#[test]
fn tension_scales_the_capped_torque_not_the_cap() {
    // damping demand of 3.0 against a cap of 1.0 at half tension: the
    // demand is capped to the full 1.0 first and halved after, giving
    // about 0.5 - not the full cap
    let mut m = Muscle::new(BoneId::Head, 0, 1_000_000, 1_000_000);
    m.strength = 500_000;
    let r = m.pd_torque(Vec3::zero(), 0, Vec3::new(-3_000_000, 0, 0));
    assert_eq!(r, Vec3::new(499_999, 0, 0));
    // at full tension the same demand gives the whole cap
    m.strength = FX_ONE;
    let full = m.pd_torque(Vec3::zero(), 0, Vec3::new(-3_000_000, 0, 0));
    assert_eq!(full, Vec3::new(999_999, 0, 0));
}

#[test]
fn pd_law_caps_along_the_direction() {
    // a 3-4-5 demand five times over the cap scales to just under it
    let m = Muscle::new(BoneId::Head, 5_000_000, 0, 1_000_000);
    let r = m.pd_torque(Vec3::new(600_000, 800_000, 0), FX_ONE, Vec3::zero());
    assert_eq!(r, Vec3::new(599_999, 799_999, 0));
}

#[test]
fn zero_error_zero_spin_means_zero_torque() {
    let m = Muscle::new(BoneId::Spine, 800_000_000, 80_000_000, 500_000_000);
    let r = m.calculate_torque(Quat::identity(), Vec3::zero());
    assert_eq!(r, Vec3::zero());
}

#[test]
fn humanoid_muscle_set_covers_every_bone_but_the_root() {
    let sys = MuscleSystem::create_humanoid();
    assert_eq!(sys.global_strength, FX_ONE);
    assert_eq!(sys.muscles.len(), 11);
    assert!(sys.muscles[0].is_none());
    for i in 1..11 {
        let m = sys.muscles[i].as_ref().unwrap();
        assert_eq!(m.strength, FX_ONE);
        assert_eq!(m.target_rotation, Quat::identity());
    }
    let spine = sys.muscles[BoneId::Spine.index()].as_ref().unwrap();
    assert_eq!((spine.kp, spine.kd, spine.max_torque), (800_000_000, 80_000_000, 500_000_000));
    let lul = sys.muscles[BoneId::LeftUpperLeg.index()].as_ref().unwrap();
    assert_eq!((lul.kp, lul.kd, lul.max_torque), (1_000_000_000, 100_000_000, 800_000_000));
    let head = sys.muscles[BoneId::Head.index()].as_ref().unwrap();
    assert_eq!((head.kp, head.kd, head.max_torque), (250_000_000, 25_000_000, 120_000_000));
}

#[test]
fn ragdoll_strength_zeroes_every_batched_torque() {
    let mut sys = MuscleSystem::create_humanoid();
    sys.go_ragdoll();
    assert_eq!(sys.global_strength, 0);
    let mut frame: Vec<Option<BodyState>> = Vec::new();
    for _ in 0..11 {
        frame.push(Some(BodyState {
            position: Vec3::zero(),
            rotation: Quat::from_rotation_x(1_000_000),
            angular_velocity: Vec3::new(2_000_000, 0, 0),
        }));
    }
    let torques = sys.update(&frame);
    assert_eq!(torques.len(), 10);
    // one entry per actuated bone, in creation order
    let expected_order = [
        BoneId::Spine,
        BoneId::Head,
        BoneId::LeftUpperArm,
        BoneId::LeftLowerArm,
        BoneId::RightUpperArm,
        BoneId::RightLowerArm,
        BoneId::LeftUpperLeg,
        BoneId::LeftLowerLeg,
        BoneId::RightUpperLeg,
        BoneId::RightLowerLeg,
    ];
    for (k, (bone, t)) in torques.into_iter().enumerate() {
        assert_eq!(bone, expected_order[k]);
        assert_ne!(bone, BoneId::Pelvis);
        assert_eq!(t, Vec3::zero());
    }
    sys.recover();
    assert_eq!(sys.global_strength, FX_ONE);
    let torques2 = sys.update(&frame);
    assert!(torques2.iter().any(|(_, t)| *t != Vec3::zero()));
}

#[test]
fn absent_bodies_are_skipped() {
    let sys = MuscleSystem::create_humanoid();
    let mut frame: Vec<Option<BodyState>> = vec![None; 11];
    frame[BoneId::Spine.index()] = Some(BodyState {
        position: Vec3::zero(),
        rotation: Quat::identity(),
        angular_velocity: Vec3::zero(),
    });
    let torques = sys.update(&frame);
    assert_eq!(torques.len(), 1);
    assert_eq!(torques[0].0, BoneId::Spine);
}

#[test]
fn set_pose_retargets_every_muscle() {
    let mut sys = MuscleSystem::create_humanoid();
    let pose = TargetPose::t_pose();
    sys.set_pose(&pose);
    let lua = sys.muscles[BoneId::LeftUpperArm.index()].as_ref().unwrap();
    assert_eq!(lua.target_rotation, Quat::from_rotation_z(-active_ragdoll::FX_HALF_PI));
    // gains survive a retarget
    assert_eq!(lua.kp, 400_000_000);
}

#[test]
fn muscle_strength_setter_clamps() {
    let mut sys = MuscleSystem::create_humanoid();
    sys.set_muscle_strength(BoneId::Head, 5_000_000);
    assert_eq!(sys.muscles[BoneId::Head.index()].as_ref().unwrap().strength, FX_ONE);
    sys.set_muscle_strength(BoneId::Head, -5);
    assert_eq!(sys.muscles[BoneId::Head.index()].as_ref().unwrap().strength, 0);
    sys.set_muscle_strength(BoneId::Head, 123_456);
    assert_eq!(sys.muscles[BoneId::Head.index()].as_ref().unwrap().strength, 123_456);
    // only the addressed muscle changes
    assert_eq!(sys.muscles[BoneId::Spine.index()].as_ref().unwrap().strength, FX_ONE);
}

#[test]
fn reference_poses() {
    let t = TargetPose::t_pose();
    assert_eq!(t.rotation(BoneId::Pelvis), Quat::identity());
    assert_eq!(t.rotation(BoneId::LeftUpperArm), Quat::from_rotation_z(-active_ragdoll::FX_HALF_PI));
    assert_eq!(t.rotation(BoneId::RightUpperArm), Quat::from_rotation_z(active_ragdoll::FX_HALF_PI));
    let s = TargetPose::standing();
    assert_eq!(s.rotation(BoneId::LeftUpperArm), Quat::from_rotation_z(-300_000));
    assert_eq!(s.rotation(BoneId::RightUpperArm), Quat::from_rotation_z(300_000));
    assert_eq!(s.rotation(BoneId::LeftLowerArm), Quat::from_rotation_x(200_000));
    assert_eq!(s.rotation(BoneId::Head), Quat::identity());
}

#[test]
fn lerp_returns_its_endpoint_poses_bone_by_bone() {
    let a = TargetPose::t_pose();
    let b = TargetPose::standing();
    let at_zero = TargetPose::lerp(&a, &b, 0);
    let at_one = TargetPose::lerp(&a, &b, FX_ONE);
    for bone in BoneId::all_bones() {
        assert_eq!(at_zero.rotation(bone), a.rotation(bone), "{bone:?} at t = 0");
        assert!(
            quat_eq_up_to_sign(at_one.rotation(bone), b.rotation(bone)),
            "{bone:?} at t = 1"
        );
    }
}

#[test]
fn walk_cycle_stands_still_unless_walking() {
    let mut w = WalkCycle::new();
    let before = w;
    w.update(16_667, false);
    assert_eq!(w, before);
    w.update(999_999_999, false);
    assert_eq!(w, before);
}

#[test]
fn walk_cycle_advances_and_wraps_while_walking() {
    let mut w = WalkCycle::new();
    w.update(16_667, true);
    // two steps per second: the phase advances by twice the scaled delta
    assert_eq!(w.phase, 33_334);
    w.phase = 990_000;
    w.update(16_667, true);
    assert_eq!(w.phase, 990_000 + 33_334 - FX_ONE);
}

#[test]
fn walking_pose_alternates_legs_and_gates_knees() {
    let mut w = WalkCycle::new();
    w.phase = 250_000;
    let pose = w.get_pose();
    let phase_rad = fx_mul(smooth_step(w.phase), FX_TAU);
    let swing = fx_mul(sin_fx(phase_rad), w.stride_length);
    assert!(swing > 0, "front half of the cycle swings forward");
    // legs are in counter-phase about the x axis
    assert_eq!(pose.rotation(BoneId::LeftUpperLeg), Quat::from_rotation_x(-swing));
    assert_eq!(pose.rotation(BoneId::RightUpperLeg), Quat::from_rotation_x(swing));
    // only the backward-swinging leg bends its knee
    assert_eq!(pose.rotation(BoneId::LeftLowerLeg), Quat::from_rotation_x(0));
    let right_knee = pose.rotation(BoneId::RightLowerLeg);
    assert!(right_knee != Quat::from_rotation_x(0), "trailing knee must flex");
    // elbows stay slightly bent, the head neutral
    assert_eq!(pose.rotation(BoneId::LeftLowerArm), Quat::from_rotation_x(300_000));
    assert_eq!(pose.rotation(BoneId::Head), Quat::identity());
    // arms swing counter to each other
    let arm = fx_mul(sin_fx(phase_rad), w.arm_swing_amount);
    let left = Quat::from_rotation_z(-200_000).mul(Quat::from_rotation_x(arm));
    let right = Quat::from_rotation_z(200_000).mul(Quat::from_rotation_x(-arm));
    assert_eq!(pose.rotation(BoneId::LeftUpperArm), left);
    assert_eq!(pose.rotation(BoneId::RightUpperArm), right);
}

#[test]
fn half_cycle_swings_the_other_leg() {
    let mut w = WalkCycle::new();
    w.phase = 750_000;
    let pose = w.get_pose();
    let phase_rad = fx_mul(smooth_step(w.phase), FX_TAU);
    let swing = fx_mul(sin_fx(phase_rad), w.stride_length);
    assert!(swing < 0, "back half of the cycle swings backward");
    assert_eq!(pose.rotation(BoneId::LeftUpperLeg), Quat::from_rotation_x(-swing));
    // now the left knee flexes and the right stays straight
    assert!(pose.rotation(BoneId::LeftLowerLeg) != Quat::from_rotation_x(0));
    assert_eq!(pose.rotation(BoneId::RightLowerLeg), Quat::from_rotation_x(0));
}

#[test]
fn euler_targets_stay_well_formed() {
    let mut m = Muscle::new(BoneId::Head, 250_000_000, 25_000_000, 120_000_000);
    m.set_target_euler(500_000, -1_000_000, FX_PI);
    let t = m.target_rotation;
    for c in [t.x, t.y, t.z, t.w] {
        assert!(c.abs() <= 2_000_000);
    }
    // a zero rotation targets the identity
    m.set_target_euler(0, 0, 0);
    assert_eq!(m.target_rotation, Quat::identity());
}
