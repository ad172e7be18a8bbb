//! The orchestrator: mode state machine, steering, impacts, snapshots.

use active_ragdoll::FX_ONE;
use active_ragdoll::FX_PI;
use active_ragdoll::FX_TAU;
use active_ragdoll::fx::fx_mul;
use active_ragdoll::fx::sin_fx;
use active_ragdoll::muscle::smooth_step;
use active_ragdoll::linalg::Quat;
use active_ragdoll::linalg::Vec3;
use active_ragdoll::muscle::BodyState;
use active_ragdoll::ragdoll::ActiveRagdoll;
use active_ragdoll::ragdoll::RagdollMode;
use active_ragdoll::skeleton::BoneId;

const TICK: i64 = 16_667;

fn empty_frame() -> Vec<Option<BodyState>> {
    vec![None; 11]
}

fn resting_frame() -> Vec<Option<BodyState>> {
    let mut frame = Vec::new();
    for _ in 0..11 {
        frame.push(Some(BodyState {
            position: Vec3::zero(),
            rotation: Quat::identity(),
            angular_velocity: Vec3::zero(),
        }));
    }
    frame
}

#[test]
fn spawns_as_a_pure_ragdoll() {
    let ar = ActiveRagdoll::new(Vec3::new(0, 2_000_000, 0));
    assert_eq!(ar.mode, RagdollMode::Ragdoll);
    assert!(!ar.is_walking);
    assert_eq!(ar.target_position, Vec3::new(0, 2_000_000, 0));
    assert_eq!(ar.move_speed, 3_000_000);
}

#[test]
fn ragdoll_mode_zeroes_strength_in_the_same_tick() {
    let mut ar = ActiveRagdoll::new(Vec3::zero());
    ar.mode = RagdollMode::Active;
    ar.update(&empty_frame(), TICK);
    assert_eq!(ar.muscles.global_strength, FX_ONE);
    ar.go_ragdoll();
    assert_eq!(ar.mode, RagdollMode::Ragdoll);
    let cmds = ar.update(&empty_frame(), TICK);
    assert_eq!(ar.muscles.global_strength, 0);
    assert!(cmds.pelvis_force.is_none());
    assert!(cmds.yaw_torque.is_none());
    assert!(cmds.pelvis_upright.is_none());
    assert!(cmds.spine_upright.is_none());
}

#[test]
fn recovery_ramps_to_full_control_and_active_mode() {
    let mut ar = ActiveRagdoll::new(Vec3::zero());
    ar.start_recovery();
    assert_eq!(ar.mode, RagdollMode::Recovery { progress: 0 });
    let frame = empty_frame();
    let mut prev = 0i64;
    let mut ticks = 0;
    while ar.mode != RagdollMode::Active {
        ar.update(&frame, TICK);
        // the ramp never moves backwards
        assert!(ar.muscles.global_strength >= prev);
        prev = ar.muscles.global_strength;
        ticks += 1;
        assert!(ticks < 200, "recovery must complete in about two seconds");
    }
    // the ramp runs at half a unit per second: about two seconds of ticks
    assert!(ticks >= 110, "recovery finished implausibly fast: {ticks} ticks");
    assert_eq!(ar.muscles.global_strength, FX_ONE);
}

#[test]
fn ragdoll_ticks_produce_zero_muscle_torques() {
    let mut ar = ActiveRagdoll::new(Vec3::zero());
    let cmds = ar.update(&resting_frame(), TICK);
    assert_eq!(cmds.muscle_torques.len(), 10);
    for (bone, t) in cmds.muscle_torques {
        assert_ne!(bone, BoneId::Pelvis);
        assert_eq!(t, Vec3::zero());
    }
}

#[test]
fn active_ticks_steer_and_right_the_body() {
    let mut ar = ActiveRagdoll::new(Vec3::zero());
    ar.mode = RagdollMode::Active;
    // tilt the pelvis well past the upright tolerance
    let mut frame = resting_frame();
    frame[0] = Some(BodyState {
        position: Vec3::zero(),
        rotation: Quat::from_rotation_z(600_000),
        angular_velocity: Vec3::zero(),
    });
    frame[1] = Some(BodyState {
        position: Vec3::zero(),
        rotation: Quat::from_rotation_x(-500_000),
        angular_velocity: Vec3::zero(),
    });
    ar.set_move_direction(Vec3::new(0, 0, FX_ONE));
    let cmds = ar.update(&frame, TICK);
    let force = cmds.pelvis_force.expect("walking in active mode steers the pelvis");
    assert_eq!(force.y, 0, "steering is horizontal only");
    let yaw = cmds.yaw_torque.expect("a yaw torque turns the pelvis");
    assert_eq!((yaw.x, yaw.z), (0, 0));
    assert!(yaw.y.abs() <= 50_000_000);
    let up = cmds.pelvis_upright.expect("a tilted pelvis gets an upright torque");
    assert_eq!(up.y, 0, "the upright torque leaves yaw alone");
    assert!(up.x.abs() <= 100_000_000 && up.z.abs() <= 100_000_000);
    assert!(up.x != 0 || up.z != 0);
    let sup = cmds.spine_upright.expect("the spine is righted too");
    assert_eq!(sup.y, 0);
    assert!(sup.x.abs() <= 50_000_000 && sup.z.abs() <= 50_000_000);
    // the advancing target pulls the force along +z
    assert!(force.z > 0);
}

#[test]
fn upright_correction_leaves_a_level_body_alone() {
    let mut ar = ActiveRagdoll::new(Vec3::zero());
    ar.mode = RagdollMode::Active;
    let cmds = ar.update(&resting_frame(), TICK);
    assert!(cmds.pelvis_upright.is_none());
    assert!(cmds.spine_upright.is_none());
}

#[test]
fn move_direction_sets_the_yaw_its_atan2_implies() {
    let mut ar = ActiveRagdoll::new(Vec3::zero());
    // +z: heading is atan2(0, -1) = pi
    ar.set_move_direction(Vec3::new(0, 0, FX_ONE));
    assert!(ar.is_walking);
    assert_eq!(ar.target_yaw, FX_PI);
    // -z: heading is atan2(0, 1) = 0
    ar.set_move_direction(Vec3::new(0, 0, -FX_ONE));
    assert_eq!(ar.target_yaw, 0);
    // +x: heading is atan2(-1, 0) = -pi/2
    ar.set_move_direction(Vec3::new(FX_ONE, 0, 0));
    assert_eq!(ar.target_yaw, -active_ragdoll::FX_HALF_PI);
    // the direction is stored normalized
    ar.set_move_direction(Vec3::new(0, 0, 5_000_000));
    assert_eq!(ar.move_direction, Vec3::new(0, 0, FX_ONE));
    // a near-zero direction stops walking and keeps the last heading
    let last_yaw = ar.target_yaw;
    ar.set_move_direction(Vec3::zero());
    assert!(!ar.is_walking);
    assert_eq!(ar.target_yaw, last_yaw);
}

#[test]
fn walking_stops_when_going_ragdoll() {
    let mut ar = ActiveRagdoll::new(Vec3::zero());
    ar.set_move_direction(Vec3::new(FX_ONE, 0, 0));
    assert!(ar.is_walking);
    ar.go_ragdoll();
    assert!(!ar.is_walking);
}

#[test]
fn impacts_weaken_exactly_the_struck_muscle_to_three_tenths() {
    let mut ar = ActiveRagdoll::new(Vec3::zero());
    let impulse = Vec3::new(0, 0, 9_000_000);
    let (bone, passed) = ar.apply_impact(BoneId::LeftUpperArm, impulse);
    assert_eq!(bone, BoneId::LeftUpperArm);
    assert_eq!(passed, impulse);
    let struck = ar.muscles.muscles[BoneId::LeftUpperArm.index()].as_ref().unwrap();
    assert_eq!(struck.strength, 300_000);
    for b in BoneId::all_bones() {
        if b != BoneId::LeftUpperArm && b != BoneId::Pelvis {
            let other = ar.muscles.muscles[b.index()].as_ref().unwrap();
            assert_eq!(other.strength, FX_ONE, "{b:?} must keep its tension");
        }
    }
    // a second blow compounds: 0.3 of 0.3
    ar.apply_impact(BoneId::LeftUpperArm, impulse);
    let struck = ar.muscles.muscles[BoneId::LeftUpperArm.index()].as_ref().unwrap();
    assert_eq!(struck.strength, 90_000);
}

#[test]
fn walk_cycle_only_advances_through_update_while_walking() {
    let mut ar = ActiveRagdoll::new(Vec3::zero());
    let before = ar.walk_cycle;
    ar.update(&empty_frame(), TICK);
    assert_eq!(ar.walk_cycle, before, "standing still leaves the cycle alone");
    ar.set_move_direction(Vec3::new(0, 0, FX_ONE));
    ar.update(&empty_frame(), TICK);
    assert_eq!(ar.walk_cycle.phase, 33_334);
}

#[test]
fn update_pushes_the_selected_pose_into_the_muscles() {
    let mut ar = ActiveRagdoll::new(Vec3::zero());
    // standing still: the hard switch selects the standing pose
    ar.update(&resting_frame(), TICK);
    let lua = ar.muscles.muscles[BoneId::LeftUpperArm.index()].as_ref().unwrap();
    assert_eq!(lua.target_rotation, Quat::from_rotation_z(-300_000));
    // walking: the cycle advances first, then the pose follows it
    ar.set_move_direction(Vec3::new(0, 0, FX_ONE));
    ar.update(&resting_frame(), TICK);
    assert_eq!(ar.walk_cycle.phase, 33_334);
    let swing = fx_mul(sin_fx(fx_mul(smooth_step(33_334), FX_TAU)), 500_000);
    let lul = ar.muscles.muscles[BoneId::LeftUpperLeg.index()].as_ref().unwrap();
    assert_eq!(lul.target_rotation, Quat::from_rotation_x(-swing));
    let rul = ar.muscles.muscles[BoneId::RightUpperLeg.index()].as_ref().unwrap();
    assert_eq!(rul.target_rotation, Quat::from_rotation_x(swing));
}

#[test]
fn the_walking_target_advances_at_the_commanded_speed() {
    let mut ar = ActiveRagdoll::new(Vec3::zero());
    ar.mode = RagdollMode::Active;
    ar.set_move_direction(Vec3::new(0, 0, FX_ONE));
    // one tick at 60 Hz advances the target by speed * delta: 3.0 * 1/60
    ar.update(&resting_frame(), TICK);
    assert_eq!(ar.target_position, Vec3::new(0, 0, 50_001));
    // without a pelvis body the target holds still
    ar.update(&empty_frame(), TICK);
    assert_eq!(ar.target_position, Vec3::new(0, 0, 50_001));
    // in ragdoll mode it holds still too
    ar.go_ragdoll();
    ar.set_move_direction(Vec3::new(0, 0, FX_ONE));
    ar.update(&resting_frame(), TICK);
    assert_eq!(ar.target_position, Vec3::new(0, 0, 50_001));
}

#[test]
fn bone_transform_snapshots_skip_missing_bodies() {
    let ar = ActiveRagdoll::new(Vec3::zero());
    let all = ar.get_bone_transforms(&resting_frame());
    assert_eq!(all.len(), 11);
    assert_eq!(all[0].0, BoneId::Pelvis);
    let mut frame = resting_frame();
    frame[BoneId::Head.index()] = None;
    let most = ar.get_bone_transforms(&frame);
    assert_eq!(most.len(), 10);
    assert!(most.iter().all(|(b, _, _)| *b != BoneId::Head));
}

#[test]
fn position_and_rotation_read_the_pelvis_with_quiet_defaults() {
    let ar = ActiveRagdoll::new(Vec3::zero());
    let mut frame = resting_frame();
    frame[0] = Some(BodyState {
        position: Vec3::new(1, 2, 3),
        rotation: Quat::from_rotation_y(700_000),
        angular_velocity: Vec3::zero(),
    });
    assert_eq!(ar.get_position(&frame), Vec3::new(1, 2, 3));
    assert_eq!(ar.get_rotation(&frame), Quat::from_rotation_y(700_000));
    frame[0] = None;
    assert_eq!(ar.get_position(&frame), Vec3::zero());
    assert_eq!(ar.get_rotation(&frame), Quat::identity());
}

#[test]
fn log_lines_render_exactly() {
    assert_eq!(active_ragdoll::diagnostics::log_debug("pelvis settled"), "pelvis settled\n");
    assert_eq!(
        active_ragdoll::diagnostics::WgpuErrorLogger::log_validation("bad bind group"),
        "WGPU VALIDATION: bad bind group"
    );
    assert_eq!(active_ragdoll::diagnostics::log_console(0, "boot"), "[0] boot\n");
    assert_eq!(
        active_ragdoll::diagnostics::log_console(1_700_000_123, "tick"),
        "[1700000123] tick\n"
    );
    assert_eq!(active_ragdoll::diagnostics::log_console(10, ""), "[10] \n");
    assert_eq!(
        active_ragdoll::diagnostics::WgpuErrorLogger::log_error("OutOfMemory"),
        "WGPU ERROR: OutOfMemory"
    );
}
