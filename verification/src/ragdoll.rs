//! The active-ragdoll orchestrator: a mode state machine over the
//! skeleton, muscles and walk cycle, steering forces on the pelvis, and
//! upright corrections on pelvis and spine.
//!
//! Each tick the caller reads every bone's body back from the engine into
//! a snapshot, runs `update`, and applies the returned command batch -
//! forces and torques - before stepping the simulation.

use vstd::prelude::*;

use crate::fx::FX_ONE;
use crate::fx::FX_PI;
use crate::fx::FX_TAU;
use crate::fx::acos_fx;
use crate::fx::atan2_fx;
use crate::fx::atan2_spec;
use crate::fx::fx_abs;
use crate::fx::fx_clamp;
use crate::fx::fx_clamp_spec;
use crate::fx::fx_mul;
use crate::fx::fx_mul_spec;
use crate::fx::lemma_mul_abs_le;
use crate::fx::lemma_mul_le;
use crate::fx::lemma_mul_zero;
use crate::linalg::QUAT_LIMIT;
use crate::linalg::Quat;
use crate::linalg::Vec3;
use crate::linalg::mag_sq;
use crate::linalg::quat_identity_spec;
use crate::linalg::quat_in;
use crate::linalg::vec_in;
use crate::muscle::BodyState;
use crate::muscle::MuscleSystem;
use crate::muscle::TargetPose;
use crate::muscle::WalkCycle;
use crate::muscle::muscle_batch;
use crate::muscle::muscle_cap;
use crate::muscle::muscle_def;
use crate::muscle::standing_rot;
use crate::muscle::states_wf;
use crate::muscle::walk_next_phase;
use crate::muscle::walk_pose_rot;
use crate::skeleton::BoneId;
use crate::skeleton::Skeleton;
use crate::skeleton::bone_index_spec;
use crate::skeleton::bone_order;
use crate::skeleton::lemma_bone_tree;

verus! {

/// Control authority mode: full control, none at all, or a timed ramp
/// back from none to full.
#[derive(Clone, Copy, Debug, PartialEq, Eq, Structural)]
pub enum RagdollMode {
    Active,
    Ragdoll,
    Recovery { progress: i64 },
}

/// A recovery progress stays within `[0, 1]`.
pub open spec fn mode_wf(m: RagdollMode) -> bool {
    match m {
        RagdollMode::Recovery { progress } => 0 <= progress <= FX_ONE,
        _ => true,
    }
}

/// One tick of the mode state machine: the mode it lands in and the
/// global strength it dictates. Active holds full strength, Ragdoll
/// none; Recovery ramps the strength linearly - half the elapsed time
/// per tick - and hands over to Active the moment it reaches full.
pub open spec fn resolve_mode(m: RagdollMode, delta: int) -> (RagdollMode, int) {
    match m {
        RagdollMode::Active => (RagdollMode::Active, FX_ONE as int),
        RagdollMode::Ragdoll => (RagdollMode::Ragdoll, 0),
        RagdollMode::Recovery { progress } => {
            let np0 = progress as int + fx_mul_spec(delta, 500_000);
            let np = if np0 > FX_ONE as int {
                FX_ONE as int
            } else {
                np0
            };
            if np >= FX_ONE as int {
                (RagdollMode::Active, FX_ONE as int)
            } else {
                (RagdollMode::Recovery { progress: np as i64 }, np)
            }
        },
    }
}

/// Entering ragdoll zeroes the global strength on the very tick it is
/// resolved; active mode holds it at full; a recovery never moves the
/// strength backwards and always stays within `[0, 1]`.
pub proof fn lemma_mode_resolution(m: RagdollMode, delta: int)
    requires
        mode_wf(m),
        delta >= 0,
    ensures
        m == RagdollMode::Ragdoll ==> resolve_mode(m, delta).1 == 0,
        m == RagdollMode::Active ==> resolve_mode(m, delta).1 == FX_ONE,
        mode_wf(resolve_mode(m, delta).0),
        0 <= resolve_mode(m, delta).1 <= FX_ONE,
        m matches RagdollMode::Recovery { progress } ==> resolve_mode(m, delta).1 >= progress,
        resolve_mode(m, delta).0 == RagdollMode::Active <==> resolve_mode(m, delta).1 == FX_ONE,
{
    match m {
        RagdollMode::Recovery { progress } => {
            crate::fx::lemma_div_mul_le(fx_abs(delta) * 500_000, FX_ONE as int);
        },
        _ => {},
    }
}

/// Once a recovery has accumulated enough simulated time - the strength
/// increment covering what is left of the ramp - one more tick drives
/// the strength to full and the mode to Active.
pub proof fn lemma_recovery_completes(p: i64, delta: int)
    requires
        0 <= p <= FX_ONE,
        delta >= 0,
        fx_mul_spec(delta, 500_000) >= FX_ONE - p,
    ensures
        resolve_mode(RagdollMode::Recovery { progress: p }, delta) == (
            RagdollMode::Active,
            FX_ONE as int,
        ),
{
}

/// Where the continuously-advanced target lands after one walking tick:
/// each component moves by the speed-scaled delta along the movement
/// direction and saturates at the edge of the fixed-point world.
pub open spec fn advanced_target(p: Vec3, dir: Vec3, speed: int, delta: int) -> Vec3 {
    Vec3 {
        x: fx_clamp_spec(
            p.x as int + fx_mul_spec(fx_mul_spec(dir.x as int, speed), delta),
            -1_000_000_000_000,
            1_000_000_000_000,
        ) as i64,
        y: fx_clamp_spec(
            p.y as int + fx_mul_spec(fx_mul_spec(dir.y as int, speed), delta),
            -1_000_000_000_000,
            1_000_000_000_000,
        ) as i64,
        z: fx_clamp_spec(
            p.z as int + fx_mul_spec(fx_mul_spec(dir.z as int, speed), delta),
            -1_000_000_000_000,
            1_000_000_000_000,
        ) as i64,
    }
}

/// The yaw-correcting torque one tick asks for: the y component of the
/// shortest-path axis-angle error from the body's rotation to the target
/// yaw, scaled by the rotation force and clamped.
pub open spec fn yaw_torque_spec(target_yaw: int, rotation: Quat, force: int) -> int {
    let eq = crate::linalg::quat_mul_spec(
        crate::linalg::rot_y_spec(target_yaw),
        crate::linalg::quat_conj_spec(rotation),
    );
    let axis = crate::linalg::axis_of(eq);
    let raw = crate::linalg::axis_angle_raw(eq);
    let angle = if raw > FX_PI as int {
        raw - FX_TAU as int
    } else {
        raw
    };
    fx_clamp_spec(fx_mul_spec(fx_mul_spec(axis.y as int, angle), force), -50_000_000, 50_000_000)
}

/// The command batch one tick produces, applied by the caller before the
/// physics step: an optional horizontal steering force and yaw torque on
/// the pelvis, optional upright-correction torques on pelvis and spine,
/// and one muscle torque per actuated bone that reported a body state.
#[derive(Debug)]
pub struct FrameCommands {
    pub pelvis_force: Option<Vec3>,
    pub yaw_torque: Option<Vec3>,
    pub pelvis_upright: Option<Vec3>,
    pub spine_upright: Option<Vec3>,
    pub muscle_torques: Vec<(BoneId, Vec3)>,
}

/// The physics-driven character: an articulated skeleton actively driven
/// toward procedural poses, with a mode state machine blending between
/// full control, pure ragdoll, and recovery.
pub struct ActiveRagdoll {
    pub skeleton: Skeleton,
    pub muscles: MuscleSystem,
    pub mode: RagdollMode,
    pub walk_cycle: WalkCycle,
    pub is_walking: bool,
    pub move_direction: Vec3,
    pub current_pose: TargetPose,
    pub target_position: Vec3,
    pub target_yaw: i64,
    pub move_speed: i64,
    pub upright_force: i64,
    pub movement_force: i64,
    pub rotation_force: i64,
    pub frame_count: u64,
}

impl ActiveRagdoll {
    /// Every part well-formed and every tunable within the fixed-point
    /// domain.
    pub open spec fn wf(&self) -> bool {
        &&& self.skeleton.wf()
        &&& self.muscles.wf()
        &&& mode_wf(self.mode)
        &&& self.walk_cycle.wf()
        &&& self.current_pose.wf()
        &&& vec_in(self.move_direction, FX_ONE as int)
        &&& vec_in(self.target_position, 1_000_000_000_000)
        &&& fx_abs(self.target_yaw as int) <= FX_PI
        &&& 0 < self.move_speed <= 100_000_000
        &&& 0 <= self.upright_force <= 1_000_000_000
        &&& 0 <= self.movement_force <= 1_000_000_000
        &&& 0 <= self.rotation_force <= 1_000_000_000
    }

    /// Spawns a character with its pelvis at `position`, in pure ragdoll
    /// mode, facing the negative z axis, holding the standing pose as
    /// its first target.
    pub fn new(position: Vec3) -> (r: ActiveRagdoll)
        requires
            vec_in(position, 1_000_000_000_000),
        ensures
            r.wf(),
            r.mode == RagdollMode::Ragdoll,
            !r.is_walking,
            r.move_direction == (Vec3 { x: 0i64, y: 0i64, z: -FX_ONE as i64 }),
            r.target_position == position,
            r.target_yaw == 0,
            r.move_speed == 3_000_000,
            r.upright_force == 500_000_000,
            r.movement_force == 200_000_000,
            r.rotation_force == 100_000_000,
            r.skeleton.root_position == position,
            r.muscles.global_strength == FX_ONE,
            forall|i: int|
                1 <= i < 11 ==> #[trigger] r.muscles.muscles@[i] == Some(
                    muscle_def(bone_order(i)),
                ),
            r.frame_count == 0,
    {
        let skeleton = Skeleton::create_humanoid(position);
        let muscles = MuscleSystem::create_humanoid();
        ActiveRagdoll {
            skeleton,
            muscles,
            mode: RagdollMode::Ragdoll,
            walk_cycle: WalkCycle::new(),
            is_walking: false,
            move_direction: Vec3 { x: 0, y: 0, z: -FX_ONE },
            current_pose: TargetPose::standing(),
            target_position: position,
            target_yaw: 0,
            move_speed: 3_000_000,
            upright_force: 500_000_000,
            movement_force: 200_000_000,
            rotation_force: 100_000_000,
            frame_count: 0,
        }
    }

    /// One tick, strictly ordered: resolve the mode into a global
    /// strength, steer and right the body only in Active mode, advance
    /// the walk cycle, switch hard between the standing and walking
    /// pose, push the pose into the muscles, and collect every muscle
    /// torque into the command batch.
    pub fn update(&mut self, frame: &Vec<Option<BodyState>>, delta: i64) -> (r: FrameCommands)
        requires
            old(self).wf(),
            states_wf(frame@),
            0 <= delta <= 1_000_000_000,
            old(self).is_walking ==> 2 * fx_mul_spec(
                delta as int,
                old(self).walk_cycle.speed as int,
            ) < FX_ONE,
        ensures
            final(self).wf(),
            // (a) the mode resolves into the global strength this very tick
            final(self).mode == resolve_mode(old(self).mode, delta as int).0,
            final(self).muscles.global_strength as int == resolve_mode(
                old(self).mode,
                delta as int,
            ).1,
            // (b) steering and righting act only under active control
            resolve_mode(old(self).mode, delta as int).0 != RagdollMode::Active ==> r.pelvis_force
                is None && r.yaw_torque is None && r.pelvis_upright is None && r.spine_upright
                is None,
            r.pelvis_force is Some ==> resolve_mode(old(self).mode, delta as int).0
                == RagdollMode::Active && old(self).is_walking,
            ({
                let active = resolve_mode(old(self).mode, delta as int).0 == RagdollMode::Active;
                let target = advanced_target(
                    old(self).target_position,
                    old(self).move_direction,
                    old(self).move_speed as int,
                    delta as int,
                );
                active && old(self).is_walking ==> (frame@[0] matches Some(b)
                    ==> r.pelvis_force == Some(
                    Vec3 {
                        x: fx_mul_spec(
                            target.x as int - b.position.x as int,
                            old(self).movement_force as int,
                        ) as i64,
                        y: 0i64,
                        z: fx_mul_spec(
                            target.z as int - b.position.z as int,
                            old(self).movement_force as int,
                        ) as i64,
                    },
                ))
            }),
            r.yaw_torque matches Some(t) ==> t.x == 0 && t.z == 0 && fx_abs(t.y as int)
                <= 50_000_000,
            r.pelvis_upright matches Some(t) ==> t.y == 0 && fx_abs(t.x as int) <= 100_000_000
                && fx_abs(t.z as int) <= 100_000_000,
            r.spine_upright matches Some(t) ==> t.y == 0 && fx_abs(t.x as int) <= 50_000_000
                && fx_abs(t.z as int) <= 50_000_000,
            // under active control the steering torques are exactly the
            // corrections the snapshot dictates
            ({
                let active = resolve_mode(old(self).mode, delta as int).0 == RagdollMode::Active;
                active ==> (frame@[0] matches Some(b) ==> r.yaw_torque == Some(
                Vec3 {
                    x: 0i64,
                    y: yaw_torque_spec(
                        old(self).target_yaw as int,
                        b.rotation,
                        old(self).rotation_force as int,
                    ) as i64,
                    z: 0i64,
                },
            ) && r.pelvis_upright == upright_spec(
                b.rotation,
                old(self).upright_force as int,
                100_000_000,
            ) && r.spine_upright == match frame@[1] {
                Some(sb) => upright_spec(
                    sb.rotation,
                    fx_mul_spec(old(self).upright_force as int, 500_000),
                    50_000_000,
                ),
                None => None::<Vec3>,
            })
            }),
            // (c) the walk cycle advances only while walking
            !old(self).is_walking ==> final(self).walk_cycle == old(self).walk_cycle,
            old(self).is_walking ==> final(self).walk_cycle == (WalkCycle {
                phase: walk_next_phase(&old(self).walk_cycle, delta as int) as i64,
                ..old(self).walk_cycle
            }),
            // (d) a hard switch selects the pose the muscles are driven to
            !old(self).is_walking ==> forall|i: int|
                0 <= i < 11 ==> #[trigger] final(self).current_pose.bone_rotations@[i]
                    == standing_rot(bone_order(i)),
            old(self).is_walking ==> forall|i: int|
                0 <= i < 11 ==> #[trigger] final(self).current_pose.bone_rotations@[i]
                    == walk_pose_rot(&final(self).walk_cycle, bone_order(i)),
            // (d') the muscles received exactly the selected pose: every
            // slot keeps its muscle, retargeted to the tick's pose
            forall|i: int|
                0 <= i < 11 ==> #[trigger] final(self).muscles.muscles@[i] == match old(
                    self,
                ).muscles.muscles@[i] {
                    None => None::<crate::muscle::Muscle>,
                    Some(m) => Some(
                        crate::muscle::Muscle {
                            target_rotation: final(self).current_pose.bone_rotations@[i],
                            ..m
                        },
                    ),
                },
            // (e) the batch is exactly one scaled controller torque per
            // bone with both a muscle and a live body, in creation order
            r.muscle_torques@ == muscle_batch(&final(self).muscles, frame@, 11),
            // every muscle torque respects its cap; none under ragdoll
            forall|j: int|
                0 <= j < r.muscle_torques@.len() ==> (#[trigger] r.muscle_torques@[j]).0
                    != BoneId::Pelvis && mag_sq(r.muscle_torques@[j].1) <= muscle_cap(
                    &final(self).muscles,
                    r.muscle_torques@[j].0,
                ) * muscle_cap(&final(self).muscles, r.muscle_torques@[j].0),
            resolve_mode(old(self).mode, delta as int).1 == 0 ==> forall|j: int|
                0 <= j < r.muscle_torques@.len() ==> (#[trigger] r.muscle_torques@[j]).1 == (Vec3 {
                    x: 0i64,
                    y: 0i64,
                    z: 0i64,
                }),
            // the target position advances only while walking under control
            ({
                let active = resolve_mode(old(self).mode, delta as int).0 == RagdollMode::Active;
                if active && old(self).is_walking && frame@[0] is Some {
                    final(self).target_position == advanced_target(
                        old(self).target_position,
                        old(self).move_direction,
                        old(self).move_speed as int,
                        delta as int,
                    )
                } else {
                    final(self).target_position == old(self).target_position
                }
            }),
            // tunables and inputs survive the tick unchanged
            final(self).is_walking == old(self).is_walking,
            final(self).move_direction == old(self).move_direction,
            final(self).target_yaw == old(self).target_yaw,
            final(self).move_speed == old(self).move_speed,
    {
        proof {
            lemma_mode_resolution(self.mode, delta as int);
        }
        if self.frame_count < u64::MAX {
            self.frame_count = self.frame_count + 1;
        }
        // (a) resolve the mode into control authority
        match self.mode {
            RagdollMode::Active => {
                self.muscles.global_strength = FX_ONE;
            },
            RagdollMode::Ragdoll => {
                self.muscles.global_strength = 0;
            },
            RagdollMode::Recovery { progress } => {
                proof {
                    lemma_mul_le(fx_abs(delta as int), fx_abs(500_000int), 1_000_000_000, 500_000);
                    lemma_mul_abs_le(delta as int, 500_000, 1_000_000_000, 500_000);
                    crate::fx::lemma_div_mul_le(fx_abs(delta as int) * 500_000, FX_ONE as int);
                }
                let inc = fx_mul(delta, 500_000);
                let np0 = progress + inc;
                let np = if np0 > FX_ONE {
                    FX_ONE
                } else {
                    np0
                };
                self.muscles.global_strength = np;
                if np >= FX_ONE {
                    self.mode = RagdollMode::Active;
                } else {
                    self.mode = RagdollMode::Recovery { progress: np };
                }
            },
        }
        // (b) steering force and upright correction, only under control
        let mut pelvis_force: Option<Vec3> = None;
        let mut yaw_torque: Option<Vec3> = None;
        let mut pelvis_upright: Option<Vec3> = None;
        let mut spine_upright: Option<Vec3> = None;
        let is_active = match self.mode {
            RagdollMode::Active => true,
            _ => false,
        };
        if is_active {
            let (f, yt) = self.apply_movement_control(frame, delta);
            pelvis_force = f;
            yaw_torque = yt;
            let (pu, su) = self.apply_upright_torque(frame);
            pelvis_upright = pu;
            spine_upright = su;
        }
        // (c) advance the walk cycle
        self.walk_cycle.update(delta, self.is_walking);
        // (d) hard switch between the walking and standing pose
        if self.is_walking {
            self.current_pose = self.walk_cycle.get_pose();
        } else {
            self.current_pose = TargetPose::standing();
        }
        // (e) hand the pose to the muscles and collect their torques
        self.muscles.set_pose(&self.current_pose);
        let muscle_torques = self.muscles.update(frame);
        FrameCommands { pelvis_force, yaw_torque, pelvis_upright, spine_upright, muscle_torques }
    }

    /// Advances the target position while walking and computes the
    /// horizontal steering force toward it, plus the magnitude-clamped
    /// yaw torque toward the target yaw. A missing pelvis body is
    /// silently skipped.
    fn apply_movement_control(&mut self, frame: &Vec<Option<BodyState>>, delta: i64) -> (r: (
        Option<Vec3>,
        Option<Vec3>,
    ))
        requires
            old(self).wf(),
            states_wf(frame@),
            0 <= delta <= 1_000_000_000,
        ensures
            final(self).wf(),
            r.0 is Some ==> old(self).is_walking && frame@[0] is Some,
            r.0 matches Some(f) ==> f.y == 0,
            r.1 is Some <==> frame@[0] is Some,
            r.1 matches Some(t) ==> t.x == 0 && t.z == 0 && t.y as int == yaw_torque_spec(
                old(self).target_yaw as int,
                (frame@[0]->Some_0).rotation,
                old(self).rotation_force as int,
            ) && fx_abs(t.y as int) <= 50_000_000,
            frame@[0] is None ==> *final(self) == *old(self),
            frame@[0] is Some && old(self).is_walking ==> final(self).target_position
                == advanced_target(
                old(self).target_position,
                old(self).move_direction,
                old(self).move_speed as int,
                delta as int,
            ),
            frame@[0] is Some && old(self).is_walking ==> (r.0 matches Some(f) && f.x as int
                == fx_mul_spec(
                final(self).target_position.x as int - (frame@[0]->Some_0).position.x as int,
                old(self).movement_force as int,
            ) && f.z as int == fx_mul_spec(
                final(self).target_position.z as int - (frame@[0]->Some_0).position.z as int,
                old(self).movement_force as int,
            )),
            !old(self).is_walking ==> final(self).target_position == old(self).target_position,
            final(self).mode == old(self).mode,
            final(self).muscles == old(self).muscles,
            final(self).walk_cycle == old(self).walk_cycle,
            final(self).is_walking == old(self).is_walking,
            final(self).move_direction == old(self).move_direction,
            final(self).target_yaw == old(self).target_yaw,
            final(self).move_speed == old(self).move_speed,
            final(self).upright_force == old(self).upright_force,
            final(self).movement_force == old(self).movement_force,
            final(self).rotation_force == old(self).rotation_force,
            final(self).skeleton == old(self).skeleton,
            final(self).current_pose == old(self).current_pose,
            final(self).frame_count == old(self).frame_count,
    {
        let pelvis = &frame[0];
        match pelvis {
            None => (None, None),
            Some(body) => {
                let mut force: Option<Vec3> = None;
                if self.is_walking {
                    proof {
                        lemma_mul_le(
                            fx_abs(self.move_direction.x as int),
                            fx_abs(self.move_speed as int),
                            FX_ONE as int,
                            100_000_000,
                        );
                        lemma_mul_le(
                            fx_abs(self.move_direction.y as int),
                            fx_abs(self.move_speed as int),
                            FX_ONE as int,
                            100_000_000,
                        );
                        lemma_mul_le(
                            fx_abs(self.move_direction.z as int),
                            fx_abs(self.move_speed as int),
                            FX_ONE as int,
                            100_000_000,
                        );
                        lemma_mul_abs_le(
                            self.move_direction.x as int,
                            self.move_speed as int,
                            FX_ONE as int,
                            100_000_000,
                        );
                        lemma_mul_abs_le(
                            self.move_direction.y as int,
                            self.move_speed as int,
                            FX_ONE as int,
                            100_000_000,
                        );
                        lemma_mul_abs_le(
                            self.move_direction.z as int,
                            self.move_speed as int,
                            FX_ONE as int,
                            100_000_000,
                        );
                    }
                    let step = self.move_direction.scale(self.move_speed);
                    proof {
                        lemma_mul_le(
                            fx_abs(step.x as int),
                            fx_abs(delta as int),
                            100_000_000,
                            1_000_000_000,
                        );
                        lemma_mul_le(
                            fx_abs(step.y as int),
                            fx_abs(delta as int),
                            100_000_000,
                            1_000_000_000,
                        );
                        lemma_mul_le(
                            fx_abs(step.z as int),
                            fx_abs(delta as int),
                            100_000_000,
                            1_000_000_000,
                        );
                        lemma_mul_abs_le(step.x as int, delta as int, 100_000_000, 1_000_000_000);
                        lemma_mul_abs_le(step.y as int, delta as int, 100_000_000, 1_000_000_000);
                        lemma_mul_abs_le(step.z as int, delta as int, 100_000_000, 1_000_000_000);
                    }
                    let advance = step.scale(delta);
                    let moved = self.target_position.add(advance);
                    // the target saturates at the edge of the fixed-point world
                    self.target_position = Vec3 {
                        x: fx_clamp(moved.x, -1_000_000_000_000, 1_000_000_000_000),
                        y: fx_clamp(moved.y, -1_000_000_000_000, 1_000_000_000_000),
                        z: fx_clamp(moved.z, -1_000_000_000_000, 1_000_000_000_000),
                    };
                    let dx = self.target_position.x - body.position.x;
                    let dz = self.target_position.z - body.position.z;
                    proof {
                        lemma_mul_le(
                            fx_abs(dx as int),
                            fx_abs(self.movement_force as int),
                            2_000_000_000_000,
                            1_000_000_000,
                        );
                        lemma_mul_le(
                            fx_abs(dz as int),
                            fx_abs(self.movement_force as int),
                            2_000_000_000_000,
                            1_000_000_000,
                        );
                    }
                    force = Some(
                        Vec3 {
                            x: fx_mul(dx, self.movement_force),
                            y: 0,
                            z: fx_mul(dz, self.movement_force),
                        },
                    );
                }
                // yaw-correcting torque toward the target yaw
                let target_quat = Quat::from_rotation_y(self.target_yaw);
                let error_quat = target_quat.mul(body.rotation.conjugate());
                let (axis, raw_angle) = error_quat.to_axis_angle();
                let angle = if raw_angle > FX_PI {
                    raw_angle - FX_TAU
                } else {
                    raw_angle
                };
                proof {
                    lemma_mul_le(
                        fx_abs(axis.y as int),
                        fx_abs(angle as int),
                        FX_ONE as int,
                        FX_TAU as int,
                    );
                    lemma_mul_abs_le(axis.y as int, angle as int, FX_ONE as int, FX_TAU as int);
                    lemma_mul_le(
                        fx_abs(fx_mul_spec(axis.y as int, angle as int)),
                        fx_abs(self.rotation_force as int),
                        6_283_185,
                        1_000_000_000,
                    );
                }
                let torque_y_raw = fx_mul(fx_mul(axis.y, angle), self.rotation_force);
                let torque_y = fx_clamp(torque_y_raw, -50_000_000, 50_000_000);
                (force, Some(Vec3 { x: 0, y: torque_y, z: 0 }))
            },
        }
    }

    /// Torque righting the pelvis and spine: proportional to the angle
    /// between each body's local up axis and world up, clamped per axis,
    /// and deliberately leaving the yaw axis untouched so it cannot
    /// fight the steering torque. Missing bodies are silently skipped.
    fn apply_upright_torque(&self, frame: &Vec<Option<BodyState>>) -> (r: (
        Option<Vec3>,
        Option<Vec3>,
    ))
        requires
            self.wf(),
            states_wf(frame@),
        ensures
            r.0 matches Some(t) ==> t.y == 0 && fx_abs(t.x as int) <= 100_000_000 && fx_abs(
                t.z as int,
            ) <= 100_000_000,
            r.1 matches Some(t) ==> t.y == 0 && fx_abs(t.x as int) <= 50_000_000 && fx_abs(
                t.z as int,
            ) <= 50_000_000,
            frame@[0] is None ==> r.0 is None && r.1 is None,
            frame@[0] matches Some(b) ==> r.0 == upright_spec(
                b.rotation,
                self.upright_force as int,
                100_000_000,
            ),
            frame@[0] is Some ==> r.1 == match frame@[1] {
                Some(sb) => upright_spec(
                    sb.rotation,
                    fx_mul_spec(self.upright_force as int, 500_000),
                    50_000_000,
                ),
                None => None::<Vec3>,
            },
    {
        let pelvis = &frame[0];
        match pelvis {
            None => (None, None),
            Some(body) => {
                let pelvis_torque = upright_correction(
                    body.rotation,
                    self.upright_force,
                    100_000_000,
                );
                proof {
                    lemma_mul_le(
                        fx_abs(self.upright_force as int),
                        fx_abs(500_000int),
                        1_000_000_000,
                        500_000,
                    );
                    lemma_mul_abs_le(self.upright_force as int, 500_000, 1_000_000_000, 500_000);
                    crate::fx::lemma_div_mul_le(
                        fx_abs(self.upright_force as int) * 500_000,
                        FX_ONE as int,
                    );
                }
                let half_force = fx_mul(self.upright_force, 500_000);
                let spine_torque = match &frame[1] {
                    Some(spine_body) => upright_correction(
                        spine_body.rotation,
                        half_force,
                        50_000_000,
                    ),
                    None => None,
                };
                (pelvis_torque, spine_torque)
            },
        }
    }

    /// Sets the world-space movement direction. A near-zero direction
    /// stops walking; any other is normalized, starts walking, and sets
    /// the target yaw to the heading the direction implies.
    pub fn set_move_direction(&mut self, direction: Vec3)
        requires
            old(self).wf(),
            vec_in(direction, 1_000_000_000_000),
        ensures
            final(self).wf(),
            mag_sq(direction) > 10_000_000_000 ==> final(self).is_walking && final(self).target_yaw as int == atan2_spec(-(direction.x as int), -(direction.z as int))
                && vec_in(final(self).move_direction, FX_ONE as int),
            mag_sq(direction) > 10_000_000_000 ==> final(self).move_direction == (Vec3 {
                x: crate::fx::fx_muldiv_spec(
                    direction.x as int,
                    FX_ONE as int,
                    crate::fx::isqrt_spec(mag_sq(direction)),
                ) as i64,
                y: crate::fx::fx_muldiv_spec(
                    direction.y as int,
                    FX_ONE as int,
                    crate::fx::isqrt_spec(mag_sq(direction)),
                ) as i64,
                z: crate::fx::fx_muldiv_spec(
                    direction.z as int,
                    FX_ONE as int,
                    crate::fx::isqrt_spec(mag_sq(direction)),
                ) as i64,
            }),
            mag_sq(direction) <= 10_000_000_000 ==> !final(self).is_walking && final(self).move_direction == old(self).move_direction && final(self).target_yaw == old(self).target_yaw,
            final(self).mode == old(self).mode,
            final(self).muscles == old(self).muscles,
            final(self).walk_cycle == old(self).walk_cycle,
            final(self).target_position == old(self).target_position,
            final(self).move_speed == old(self).move_speed,
            final(self).skeleton == old(self).skeleton,
            final(self).current_pose == old(self).current_pose,
            final(self).upright_force == old(self).upright_force,
            final(self).movement_force == old(self).movement_force,
            final(self).rotation_force == old(self).rotation_force,
            final(self).frame_count == old(self).frame_count,
    {
        let m2 = direction.mag_sq_wide();
        if m2 > 10_000_000_000i128 {
            self.move_direction = direction.normalize();
            self.is_walking = true;
            self.target_yaw = atan2_fx(-direction.x, -direction.z);
        } else {
            self.is_walking = false;
        }
    }

    /// Drops all control at once: pure ragdoll, and no more walking.
    pub fn go_ragdoll(&mut self)
        requires
            old(self).wf(),
        ensures
            final(self).wf(),
            final(self).mode == RagdollMode::Ragdoll,
            !final(self).is_walking,
            final(self).muscles == old(self).muscles,
            final(self).walk_cycle == old(self).walk_cycle,
            final(self).target_position == old(self).target_position,
            final(self).target_yaw == old(self).target_yaw,
            final(self).skeleton == old(self).skeleton,
            final(self).move_direction == old(self).move_direction,
            final(self).current_pose == old(self).current_pose,
            final(self).move_speed == old(self).move_speed,
            final(self).upright_force == old(self).upright_force,
            final(self).movement_force == old(self).movement_force,
            final(self).rotation_force == old(self).rotation_force,
            final(self).frame_count == old(self).frame_count,
    {
        self.mode = RagdollMode::Ragdoll;
        self.is_walking = false;
    }

    /// Begins the timed ramp from ragdoll back to full control.
    pub fn start_recovery(&mut self)
        requires
            old(self).wf(),
        ensures
            final(self).wf(),
            final(self).mode == (RagdollMode::Recovery { progress: 0i64 }),
            final(self).is_walking == old(self).is_walking,
            final(self).muscles == old(self).muscles,
            final(self).skeleton == old(self).skeleton,
            final(self).walk_cycle == old(self).walk_cycle,
            final(self).move_direction == old(self).move_direction,
            final(self).current_pose == old(self).current_pose,
            final(self).target_position == old(self).target_position,
            final(self).target_yaw == old(self).target_yaw,
            final(self).move_speed == old(self).move_speed,
            final(self).upright_force == old(self).upright_force,
            final(self).movement_force == old(self).movement_force,
            final(self).rotation_force == old(self).rotation_force,
            final(self).frame_count == old(self).frame_count,
    {
        self.mode = RagdollMode::Recovery { progress: 0 };
    }

    /// The character's position: the pelvis body's, or the origin when
    /// the pelvis is missing.
    pub fn get_position(&self, frame: &Vec<Option<BodyState>>) -> (r: Vec3)
        requires
            states_wf(frame@),
        ensures
            r == match frame@[0] {
                Some(s) => s.position,
                None => Vec3 { x: 0i64, y: 0i64, z: 0i64 },
            },
    {
        match &frame[0] {
            Some(s) => s.position,
            None => Vec3 { x: 0, y: 0, z: 0 },
        }
    }

    /// The character's rotation: the pelvis body's, or identity when the
    /// pelvis is missing.
    pub fn get_rotation(&self, frame: &Vec<Option<BodyState>>) -> (r: Quat)
        requires
            states_wf(frame@),
        ensures
            r == match frame@[0] {
                Some(s) => s.rotation,
                None => quat_identity_spec(),
            },
    {
        match &frame[0] {
            Some(s) => s.rotation,
            None => Quat::identity(),
        }
    }

    /// An instantaneous impact on one bone: hands back the impulse for
    /// the caller to apply to that body, and lets the struck muscle go
    /// momentarily loose by scaling its tension to exactly three tenths
    /// of its prior value - every other muscle keeps its tension.
    pub fn apply_impact(&mut self, bone_id: BoneId, impulse: Vec3) -> (r: (BoneId, Vec3))
        requires
            old(self).wf(),
        ensures
            final(self).wf(),
            r == (bone_id, impulse),
            final(self).muscles.muscles@.len() == 11,
            forall|j: int|
                0 <= j < 11 && j != bone_index_spec(bone_id) ==> #[trigger] final(self).muscles.muscles@[j] == old(self).muscles.muscles@[j],
            final(self).muscles.muscles@[bone_index_spec(bone_id)] == match old(self).muscles.muscles@[bone_index_spec(bone_id)] {
                None => None::<crate::muscle::Muscle>,
                Some(m) => Some(
                    crate::muscle::Muscle {
                        strength: fx_mul_spec(m.strength as int, 300_000) as i64,
                        ..m
                    },
                ),
            },
            final(self).muscles.global_strength == old(self).muscles.global_strength,
            final(self).mode == old(self).mode,
            final(self).walk_cycle == old(self).walk_cycle,
            final(self).skeleton == old(self).skeleton,
            final(self).is_walking == old(self).is_walking,
            final(self).move_direction == old(self).move_direction,
            final(self).current_pose == old(self).current_pose,
            final(self).target_position == old(self).target_position,
            final(self).target_yaw == old(self).target_yaw,
            final(self).move_speed == old(self).move_speed,
            final(self).upright_force == old(self).upright_force,
            final(self).movement_force == old(self).movement_force,
            final(self).rotation_force == old(self).rotation_force,
            final(self).frame_count == old(self).frame_count,
    {
        let i = bone_id.index();
        let cur = self.muscles.muscles[i];
        match cur {
            Some(mut m) => {
                proof {
                    lemma_mul_le(fx_abs(m.strength as int), fx_abs(300_000int), FX_ONE as int, 300_000);
                    lemma_mul_abs_le(m.strength as int, 300_000, FX_ONE as int, 300_000);
                    crate::fx::lemma_div_mul_le(fx_abs(m.strength as int) * 300_000, FX_ONE as int);
                }
                m.strength = fx_mul(m.strength, 300_000);
                self.muscles.muscles.set(i, Some(m));
            },
            None => {},
        }
        (bone_id, impulse)
    }

    /// A snapshot of every present bone: identity, world position and
    /// world rotation, one entry per live body, in creation order - the
    /// sole read surface for rendering.
    pub fn get_bone_transforms(&self, frame: &Vec<Option<BodyState>>) -> (r: Vec<
        (BoneId, Vec3, Quat),
    >)
        requires
            states_wf(frame@),
        ensures
            r@ == transforms_spec(frame@, 11),
            r@.len() <= 11,
            forall|j: int|
                0 <= j < r@.len() ==> (frame@[bone_index_spec((#[trigger] r@[j]).0)] matches Some(
                    s,
                ) && r@[j].1 == s.position && r@[j].2 == s.rotation),
            (forall|i: int| 0 <= i < 11 ==> frame@[i] is Some) ==> r@.len() == 11,
    {
        let order = BoneId::all_bones();
        let mut out: Vec<(BoneId, Vec3, Quat)> = Vec::new();
        for i in 0..11usize
            invariant
                states_wf(frame@),
                order@.len() == 11,
                forall|k: int| 0 <= k < 11 ==> #[trigger] order@[k] == bone_order(k),
                out@ == transforms_spec(frame@, i as int),
                out@.len() <= i,
                forall|j: int|
                    0 <= j < out@.len() ==> (frame@[bone_index_spec((#[trigger] out@[j]).0)] matches
                        Some(s) && out@[j].1 == s.position && out@[j].2 == s.rotation),
                (forall|k: int| 0 <= k < i ==> frame@[k] is Some) ==> out@.len() == i,
        {
            proof {
                lemma_bone_tree();
            }
            match &frame[i] {
                Some(s) => {
                    out.push((order[i], s.position, s.rotation));
                },
                None => {},
            }
            proof {
                assert(out@ =~= transforms_spec(frame@, i + 1));
            }
        }
        out
    }
}

/// The transform snapshot a frame owes, over the first `n` bones in
/// creation order: one (identity, position, rotation) triple per live
/// body, skipping absent ones silently.
pub open spec fn transforms_spec(states: Seq<Option<BodyState>>, n: int) -> Seq<
    (BoneId, Vec3, Quat),
>
    decreases n,
{
    if n <= 0 {
        Seq::empty()
    } else {
        let prefix = transforms_spec(states, n - 1);
        match states[n - 1] {
            Some(s) => prefix.push((bone_order(n - 1), s.position, s.rotation)),
            None => prefix,
        }
    }
}

/// What the upright correction computes for one body, step by step: the
/// body's up axis in world space, the rotation axis carrying it back to
/// world up, the tilt angle between the two, and the per-axis clamped,
/// yaw-free torque - absent when the tilt is a hundredth of a radian or
/// less.
pub open spec fn upright_spec(rotation: Quat, force: int, clamp_at: int) -> Option<Vec3> {
    let up = Vec3 { x: 0i64, y: FX_ONE, z: 0i64 };
    let up_world = crate::linalg::rotate_spec(rotation, up);
    let axis_x = fx_mul_spec(up_world.y as int, up.z as int) - fx_mul_spec(
        up_world.z as int,
        up.y as int,
    );
    let axis_z = fx_mul_spec(up_world.x as int, up.y as int) - fx_mul_spec(
        up_world.y as int,
        up.x as int,
    );
    let d = fx_mul_spec(up_world.x as int, up.x as int) + fx_mul_spec(
        up_world.y as int,
        up.y as int,
    ) + fx_mul_spec(up_world.z as int, up.z as int);
    let angle = crate::fx::acos_spec(fx_clamp_spec(d, -(FX_ONE as int), FX_ONE as int));
    if angle > 10_000 {
        Some(
            Vec3 {
                x: fx_clamp_spec(
                    fx_mul_spec(fx_mul_spec(axis_x, angle), force),
                    -clamp_at,
                    clamp_at,
                ) as i64,
                y: 0i64,
                z: fx_clamp_spec(
                    fx_mul_spec(fx_mul_spec(axis_z, angle), force),
                    -clamp_at,
                    clamp_at,
                ) as i64,
            },
        )
    } else {
        None
    }
}

/// The upright-correction torque for one body: the rotation axis from
/// the body's tilted up-axis back to world up, scaled by the tilt angle
/// and the given force, clamped per axis, with the yaw component zeroed.
/// A tilt of a hundredth of a radian or less is left alone.
fn upright_correction(rotation: Quat, force: i64, clamp_at: i64) -> (r: Option<Vec3>)
    requires
        quat_in(rotation, QUAT_LIMIT as int),
        0 <= force <= 1_000_000_000,
        0 < clamp_at <= 100_000_000,
    ensures
        r matches Some(t) ==> t.y == 0 && fx_abs(t.x as int) <= clamp_at as int && fx_abs(
            t.z as int,
        ) <= clamp_at as int,
        r == upright_spec(rotation, force as int, clamp_at as int),
{
    let up_local = Vec3 { x: 0, y: FX_ONE, z: 0 };
    let up_world = rotation.rotate(up_local);
    let target_up = Vec3 { x: 0, y: FX_ONE, z: 0 };
    let correction_axis = up_world.cross(target_up);
    let d = up_world.dot(target_up);
    proof {
        lemma_mul_zero(up_world.x as int);
        lemma_mul_zero(up_world.y as int);
        lemma_mul_zero(up_world.z as int);
        lemma_mul_abs_le(up_world.y as int, FX_ONE as int, 100_000_000_000, FX_ONE as int);
    }
    let dw = fx_clamp(d, -FX_ONE, FX_ONE);
    let angle = acos_fx(dw);
    if angle > 10_000 {
        proof {
            lemma_mul_abs_le(up_world.x as int, FX_ONE as int, 100_000_000_000, FX_ONE as int);
            lemma_mul_abs_le(up_world.z as int, FX_ONE as int, 100_000_000_000, FX_ONE as int);
            lemma_mul_le(
                fx_abs(correction_axis.x as int),
                fx_abs(angle as int),
                200_000_000_000,
                FX_PI as int,
            );
            lemma_mul_le(
                fx_abs(correction_axis.z as int),
                fx_abs(angle as int),
                200_000_000_000,
                FX_PI as int,
            );
            lemma_mul_abs_le(
                correction_axis.x as int,
                angle as int,
                200_000_000_000,
                FX_PI as int,
            );
            lemma_mul_abs_le(
                correction_axis.z as int,
                angle as int,
                200_000_000_000,
                FX_PI as int,
            );
            lemma_mul_le(
                fx_abs(fx_mul_spec(correction_axis.x as int, angle as int)),
                fx_abs(force as int),
                700_000_000_000,
                1_000_000_000,
            );
            lemma_mul_le(
                fx_abs(fx_mul_spec(correction_axis.z as int, angle as int)),
                fx_abs(force as int),
                700_000_000_000,
                1_000_000_000,
            );
        }
        let tx = fx_clamp(fx_mul(fx_mul(correction_axis.x, angle), force), -clamp_at, clamp_at);
        let tz = fx_clamp(fx_mul(fx_mul(correction_axis.z, angle), force), -clamp_at, clamp_at);
        Some(Vec3 { x: tx, y: 0, z: tz })
    } else {
        None
    }
}

} // verus!
