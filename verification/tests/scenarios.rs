//! End-to-end scenarios: the verified control core driving a real
//! rigid-body simulation.

use active_ragdoll::FX_ONE;
use active_ragdoll::FX_PI;
use active_ragdoll::linalg::Quat;
use active_ragdoll::linalg::Vec3;
use active_ragdoll::muscle::BodyState;
use active_ragdoll::ragdoll::ActiveRagdoll;
use active_ragdoll::ragdoll::FrameCommands;
use active_ragdoll::ragdoll::RagdollMode;
use active_ragdoll::skeleton::GROUND_COLLISION_FILTER;
use active_ragdoll::skeleton::GROUND_COLLISION_MEMBERSHIP;
use active_ragdoll::skeleton::JointKind;
use active_ragdoll::skeleton::SKELETON_COLLISION_FILTER;
use active_ragdoll::skeleton::SKELETON_COLLISION_MEMBERSHIP;

use rapier3d::prelude::nalgebra;
use rapier3d::prelude::CCDSolver;
use rapier3d::prelude::ColliderBuilder;
use rapier3d::prelude::ColliderSet;
use rapier3d::prelude::DefaultBroadPhase;
use rapier3d::prelude::Group;
use rapier3d::prelude::ImpulseJointSet;
use rapier3d::prelude::IntegrationParameters;
use rapier3d::prelude::InteractionGroups;
use rapier3d::prelude::IslandManager;
use rapier3d::prelude::JointAxis;
use rapier3d::prelude::MultibodyJointSet;
use rapier3d::prelude::NarrowPhase;
use rapier3d::prelude::PhysicsPipeline;
use rapier3d::prelude::QueryPipeline;
use rapier3d::prelude::RevoluteJointBuilder;
use rapier3d::prelude::RigidBodyBuilder;
use rapier3d::prelude::RigidBodyHandle;
use rapier3d::prelude::RigidBodySet;
use rapier3d::prelude::SphericalJointBuilder;

const TICK_FX: i64 = 16_667;
const TICK_S: f32 = 1.0 / 60.0;

fn to_f32(v: i64) -> f32 {
    v as f32 / 1_000_000.0
}

fn to_fx(v: f32) -> i64 {
    let scaled = (v * 1_000_000.0) as f64;
    let clamped = scaled.clamp(-1.0e12, 1.0e12);
    clamped as i64
}

struct Sim {
    bodies: RigidBodySet,
    colliders: ColliderSet,
    joints: ImpulseJointSet,
    multibody: MultibodyJointSet,
    params: IntegrationParameters,
    pipeline: PhysicsPipeline,
    islands: IslandManager,
    broad: DefaultBroadPhase,
    narrow: NarrowPhase,
    ccd: CCDSolver,
    query: QueryPipeline,
    gravity: nalgebra::Vector3<f32>,
}

fn new_sim() -> Sim {
    Sim {
        bodies: RigidBodySet::new(),
        colliders: ColliderSet::new(),
        joints: ImpulseJointSet::new(),
        multibody: MultibodyJointSet::new(),
        params: IntegrationParameters::default(),
        pipeline: PhysicsPipeline::new(),
        islands: IslandManager::new(),
        broad: DefaultBroadPhase::new(),
        narrow: NarrowPhase::new(),
        ccd: CCDSolver::new(),
        query: QueryPipeline::new(),
        gravity: nalgebra::Vector3::new(0.0, -9.81, 0.0),
    }
}

fn create_ground(sim: &mut Sim, y: f32) {
    let ground = RigidBodyBuilder::fixed()
        .translation(nalgebra::Vector3::new(0.0, y, 0.0))
        .build();
    let handle = sim.bodies.insert(ground);
    let collider = ColliderBuilder::cuboid(50.0, 0.1, 50.0)
        .friction(0.8)
        .restitution(0.0)
        .collision_groups(InteractionGroups::new(
            Group::from_bits_truncate(GROUND_COLLISION_MEMBERSHIP),
            Group::from_bits_truncate(GROUND_COLLISION_FILTER),
        ))
        .build();
    sim.colliders.insert_with_parent(collider, handle, &mut sim.bodies);
}

fn spawn_skeleton(sim: &mut Sim, ar: &ActiveRagdoll) -> Vec<RigidBodyHandle> {
    let mut handles: Vec<RigidBodyHandle> = Vec::new();
    for plan in ar.skeleton.body_plans() {
        let rotation = nalgebra::UnitQuaternion::from_quaternion(nalgebra::Quaternion::new(
            to_f32(plan.rotation.w),
            to_f32(plan.rotation.x),
            to_f32(plan.rotation.y),
            to_f32(plan.rotation.z),
        ));
        let position = nalgebra::Isometry3::from_parts(
            nalgebra::Translation3::new(
                to_f32(plan.center.x),
                to_f32(plan.center.y),
                to_f32(plan.center.z),
            ),
            rotation,
        );
        let body = RigidBodyBuilder::dynamic()
            .position(position)
            .angular_damping(to_f32(plan.angular_damping))
            .linear_damping(to_f32(plan.linear_damping))
            .ccd_enabled(true)
            .build();
        let handle = sim.bodies.insert(body);
        let half = to_f32(plan.half_length);
        let radius = to_f32(plan.radius);
        let mass = to_f32(plan.mass);
        let volume = std::f32::consts::PI * radius * radius * (2.0 * half);
        let collider = ColliderBuilder::capsule_y(half, radius)
            .density(mass / volume)
            .friction(0.8)
            .restitution(0.1)
            .collision_groups(InteractionGroups::new(
                Group::from_bits_truncate(SKELETON_COLLISION_MEMBERSHIP),
                Group::from_bits_truncate(SKELETON_COLLISION_FILTER),
            ))
            .build();
        sim.colliders.insert_with_parent(collider, handle, &mut sim.bodies);
        handles.push(handle);
    }
    for jp in ar.skeleton.joint_plans() {
        let parent = handles[jp.parent.index()];
        let child = handles[jp.child.index()];
        let anchor1 = nalgebra::Point3::new(
            to_f32(jp.anchor1.x),
            to_f32(jp.anchor1.y),
            to_f32(jp.anchor1.z),
        );
        let anchor2 = nalgebra::Point3::new(
            to_f32(jp.anchor2.x),
            to_f32(jp.anchor2.y),
            to_f32(jp.anchor2.z),
        );
        match jp.kind {
            JointKind::Hinge { limit_min, limit_max, stiffness, damping, max_force } => {
                let axis = nalgebra::Unit::new_normalize(nalgebra::Vector3::new(1.0, 0.0, 0.0));
                let joint = RevoluteJointBuilder::new(axis)
                    .local_anchor1(anchor1)
                    .local_anchor2(anchor2)
                    .limits([to_f32(limit_min), to_f32(limit_max)])
                    .motor_position(0.0, to_f32(stiffness), to_f32(damping))
                    .motor_max_force(to_f32(max_force))
                    .build();
                sim.joints.insert(parent, child, joint, true);
            }
            JointKind::Spherical { stiffness, damping, max_force } => {
                let mut joint = SphericalJointBuilder::new()
                    .local_anchor1(anchor1)
                    .local_anchor2(anchor2)
                    .build();
                for axis in [JointAxis::AngX, JointAxis::AngY, JointAxis::AngZ] {
                    joint.set_motor_position(axis, 0.0, to_f32(stiffness), to_f32(damping));
                    joint.set_motor_max_force(axis, to_f32(max_force));
                }
                sim.joints.insert(parent, child, joint, true);
            }
        }
    }
    handles
}

fn read_frame(sim: &Sim, handles: &[RigidBodyHandle]) -> Vec<Option<BodyState>> {
    let mut frame: Vec<Option<BodyState>> = Vec::new();
    for handle in handles {
        match sim.bodies.get(*handle) {
            Some(body) => {
                let t = body.translation();
                let r = body.rotation();
                let w = body.angvel();
                frame.push(Some(BodyState {
                    position: Vec3::new(to_fx(t.x), to_fx(t.y), to_fx(t.z)),
                    rotation: Quat {
                        x: to_fx(r.i),
                        y: to_fx(r.j),
                        z: to_fx(r.k),
                        w: to_fx(r.w),
                    },
                    angular_velocity: Vec3::new(to_fx(w.x), to_fx(w.y), to_fx(w.z)),
                }));
            }
            None => frame.push(None),
        }
    }
    frame
}

fn apply_commands(sim: &mut Sim, handles: &[RigidBodyHandle], cmds: &FrameCommands) {
    // the engine keeps user forces until told otherwise: each tick's batch
    // replaces the previous one, as the step is meant to consume it
    for handle in handles {
        if let Some(body) = sim.bodies.get_mut(*handle) {
            body.reset_forces(true);
            body.reset_torques(true);
        }
    }
    let pelvis = handles[0];
    if let Some(f) = cmds.pelvis_force {
        if let Some(body) = sim.bodies.get_mut(pelvis) {
            body.add_force(nalgebra::Vector3::new(to_f32(f.x), to_f32(f.y), to_f32(f.z)), true);
        }
    }
    for torque in [cmds.yaw_torque, cmds.pelvis_upright] {
        if let Some(t) = torque {
            if let Some(body) = sim.bodies.get_mut(pelvis) {
                body.add_torque(
                    nalgebra::Vector3::new(to_f32(t.x), to_f32(t.y), to_f32(t.z)),
                    true,
                );
            }
        }
    }
    if let Some(t) = cmds.spine_upright {
        if let Some(body) = sim.bodies.get_mut(handles[1]) {
            body.add_torque(nalgebra::Vector3::new(to_f32(t.x), to_f32(t.y), to_f32(t.z)), true);
        }
    }
    for (bone, t) in cmds.muscle_torques.iter() {
        if let Some(body) = sim.bodies.get_mut(handles[bone.index()]) {
            body.add_torque(nalgebra::Vector3::new(to_f32(t.x), to_f32(t.y), to_f32(t.z)), true);
        }
    }
}

fn step(sim: &mut Sim) {
    sim.params.dt = TICK_S;
    let Sim {
        bodies,
        colliders,
        joints,
        multibody,
        params,
        pipeline,
        islands,
        broad,
        narrow,
        ccd,
        query,
        gravity,
    } = sim;
    pipeline.step(
        gravity,
        params,
        islands,
        broad,
        narrow,
        bodies,
        colliders,
        joints,
        multibody,
        ccd,
        Some(query),
        &(),
        &(),
    );
}

fn tick(sim: &mut Sim, ar: &mut ActiveRagdoll, handles: &[RigidBodyHandle]) {
    let frame = read_frame(sim, handles);
    let cmds = ar.update(&frame, TICK_FX);
    apply_commands(sim, handles, &cmds);
    step(sim);
}

/// Spawned two metres up in pure ragdoll mode, the body falls, collapses
/// on the ground, and comes to rest at a stable height above it with its
/// spin dying out - no endless bouncing.
#[test]
fn ragdoll_dropped_on_the_ground_settles() {
    let mut sim = new_sim();
    create_ground(&mut sim, 0.0);
    let mut ar = ActiveRagdoll::new(Vec3::new(0, 2_000_000, 0));
    assert_eq!(ar.mode, RagdollMode::Ragdoll);
    let handles = spawn_skeleton(&mut sim, &ar);
    for _ in 0..120 {
        tick(&mut sim, &mut ar, &handles);
    }
    let pelvis = sim.bodies.get(handles[0]).unwrap();
    let y = pelvis.translation().y;
    assert!(y > 0.01, "the pelvis must rest above the ground, got y = {y}");
    assert!(y < 1.5, "the pelvis must have fallen from its spawn, got y = {y}");
    let spin = pelvis.angvel().norm();
    assert!(spin < 5.0, "angular velocity must be decaying, got {spin}");
}

/// Held on a +z heading for one simulated second of active control, the
/// pelvis advances along +z by no more than the commanded speed allows,
/// and the target yaw is exactly the heading's atan2.
#[test]
fn active_walker_advances_within_its_speed() {
    let mut sim = new_sim();
    create_ground(&mut sim, 0.0);
    // spawn with the feet just clear of the ground: the legs reach about
    // 1.2 metres below the pelvis
    let mut ar = ActiveRagdoll::new(Vec3::new(0, 1_250_000, 0));
    ar.mode = RagdollMode::Active;
    let handles = spawn_skeleton(&mut sim, &ar);
    ar.set_move_direction(Vec3::new(0, 0, FX_ONE));
    assert_eq!(ar.target_yaw, FX_PI);
    let start_z = sim.bodies.get(handles[0]).unwrap().translation().z;
    for _ in 0..60 {
        tick(&mut sim, &mut ar, &handles);
    }
    let end_z = sim.bodies.get(handles[0]).unwrap().translation().z;
    let advance = end_z - start_z;
    // move_speed is 3 m/s: one second of walking cannot exceed it
    assert!(advance <= 3.05, "pelvis advanced {advance} m in one second");
}
