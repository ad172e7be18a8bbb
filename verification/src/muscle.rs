//! The muscle system: one proportional-derivative controller per actuated
//! bone, driving it toward a target rotation, plus the procedural pose
//! generators that feed those targets.

use vstd::prelude::*;

use crate::fx::FX_ONE;
use crate::fx::FX_PI;
use crate::fx::FX_TAU;
use crate::fx::fx_abs;
use crate::fx::fx_clamp;
use crate::fx::fx_clamp_spec;
use crate::fx::fx_mul;
use crate::fx::fx_mul_spec;
use crate::fx::lemma_abs_sq;
use crate::fx::lemma_div_mono;
use crate::fx::lemma_div_mul_le;
use crate::fx::lemma_divmul;
use crate::fx::lemma_lt_sq;
use crate::fx::lemma_mul_abs_le;
use crate::fx::lemma_mul_le;
use crate::fx::normalize_angle;
use crate::linalg::QUAT_LIMIT;
use crate::linalg::Quat;
use crate::linalg::Vec3;
use crate::linalg::mag_sq;
use crate::linalg::quat_in;
use crate::linalg::vec_in;
use crate::skeleton::BoneId;

verus! {

/// The widest angular velocity the controllers accept, in micro-radians
/// per second: one million radians per second, far past anything a
/// simulation step produces.
pub const VEL_LIMIT: i64 = 1_000_000_000_000;

/// Below this strength a muscle is considered relaxed and produces no
/// torque at all: one hundredth of full tension.
pub const STRENGTH_CUTOFF: i64 = 10_000;

/// Ease-in-ease-out curve `t^2 (3 - 2 t)` on the clamped input.
pub open spec fn smooth_step_spec(t: int) -> int {
    let tc = fx_clamp_spec(t, 0, FX_ONE as int);
    fx_mul_spec(fx_mul_spec(tc, tc), 3 * (FX_ONE as int) - 2 * tc)
}

/// Ease-in-ease-out interpolation: slow start, fast middle, slow end.
pub fn smooth_step(t: i64) -> (r: i64)
    ensures
        r as int == smooth_step_spec(t as int),
        0 <= r <= FX_ONE,
{
    let tc = fx_clamp(t, 0, FX_ONE);
    proof {
        lemma_abs_sq(tc as int);
        lemma_mul_le(fx_abs(tc as int), fx_abs(tc as int), 1_000_000, 1_000_000);
        lemma_mul_abs_le(tc as int, tc as int, 1_000_000, 1_000_000);
        lemma_div_mul_le((tc as int) * (tc as int), FX_ONE as int);
    }
    let s = fx_mul(tc, tc);
    let u = 3 * FX_ONE - 2 * tc;
    proof {
        lemma_mul_le(fx_abs(s as int), fx_abs(u as int), 1_000_000, 3_000_000);
        assert((tc as int) * (tc as int) * (3 * 1_000_000 - 2 * (tc as int))
            <= 1_000_000_000_000_000_000) by (nonlinear_arith)
            requires
                0 <= tc as int <= 1_000_000,
        ;
        lemma_divmul((tc as int) * (tc as int), u as int, FX_ONE as int);
        lemma_div_mono(
            (tc as int) * (tc as int) * (u as int),
            1_000_000_000_000_000_000,
            FX_ONE as int,
        );
        assert((s as int) * (u as int) >= 0) by (nonlinear_arith)
            requires
                s as int >= 0,
                u as int >= 0,
        ;
        lemma_div_mono((s as int) * (u as int), 1_000_000_000_000, FX_ONE as int);
    }
    fx_mul(s, u)
}

/// A proportional-derivative controller for one joint: torque toward a
/// target rotation, stiffness `kp`, damping `kd`, output capped at
/// `max_torque`, scaled by the muscle's own tension `strength`.
#[derive(Clone, Copy, Debug, PartialEq, Eq, Structural)]
pub struct Muscle {
    pub bone_id: BoneId,
    pub kp: i64,
    pub kd: i64,
    pub max_torque: i64,
    pub target_rotation: Quat,
    pub strength: i64,
}

/// The raw torque a controller asks for, before the magnitude cap and
/// before its tension: for each axis, `axis angle kp - velocity kd`.
pub open spec fn pd_pre_torque(m: Muscle, axis: Vec3, angle: int, w: Vec3) -> Vec3 {
    Vec3 {
        x: (fx_mul_spec(fx_mul_spec(axis.x as int, angle), m.kp as int) - fx_mul_spec(
            w.x as int,
            m.kd as int,
        )) as i64,
        y: (fx_mul_spec(fx_mul_spec(axis.y as int, angle), m.kp as int) - fx_mul_spec(
            w.y as int,
            m.kd as int,
        )) as i64,
        z: (fx_mul_spec(fx_mul_spec(axis.z as int, angle), m.kp as int) - fx_mul_spec(
            w.z as int,
            m.kd as int,
        )) as i64,
    }
}

/// The capped proportional-derivative law in full:
/// `strength * clamp_magnitude(kp axis angle - kd velocity, max_torque)` -
/// the raw demand is scaled back onto the ball of radius `max_torque`
/// first, and only then scaled by the muscle's own tension.
pub open spec fn pd_torque_spec(m: Muscle, axis: Vec3, angle: int, w: Vec3) -> Vec3 {
    let pre = pd_pre_torque(m, axis, angle, w);
    let capped = if mag_sq(pre) <= (m.max_torque as int) * (m.max_torque as int) {
        pre
    } else {
        let s = crate::fx::isqrt_spec(mag_sq(pre)) + 1;
        Vec3 {
            x: crate::fx::fx_muldiv_spec(pre.x as int, m.max_torque as int, s) as i64,
            y: crate::fx::fx_muldiv_spec(pre.y as int, m.max_torque as int, s) as i64,
            z: crate::fx::fx_muldiv_spec(pre.z as int, m.max_torque as int, s) as i64,
        }
    };
    Vec3 {
        x: fx_mul_spec(capped.x as int, m.strength as int) as i64,
        y: fx_mul_spec(capped.y as int, m.strength as int) as i64,
        z: fx_mul_spec(capped.z as int, m.strength as int) as i64,
    }
}

/// The target rotation an intrinsic x-y-z Euler triple denotes: the
/// composed axis rotations, renormalized onto the unit sphere.
pub open spec fn euler_target_spec(pitch: int, yaw: int, roll: int) -> Quat {
    let q = crate::linalg::quat_mul_spec(
        crate::linalg::quat_mul_spec(
            crate::linalg::rot_x_spec(pitch),
            crate::linalg::rot_y_spec(yaw),
        ),
        crate::linalg::rot_z_spec(roll),
    );
    crate::linalg::normalize4_spec(
        q.x as int,
        q.y as int,
        q.z as int,
        q.w as int,
        crate::linalg::quat_identity_spec(),
    )
}

/// The full controller as a function of its inputs: zero below the
/// tension cutoff, otherwise the capped PD law applied to the
/// shortest-path axis-angle decomposition of the rotation error
/// `target * inverse(current)`.
pub open spec fn calc_torque_spec(m: Muscle, current: Quat, w: Vec3) -> Vec3 {
    if m.strength < STRENGTH_CUTOFF {
        Vec3 { x: 0i64, y: 0i64, z: 0i64 }
    } else {
        let eq = crate::linalg::quat_mul_spec(
            m.target_rotation,
            crate::linalg::quat_conj_spec(current),
        );
        pd_torque_spec(
            m,
            crate::linalg::axis_of(eq),
            crate::fx::normalize_angle_spec(crate::linalg::axis_angle_raw(eq)),
            w,
        )
    }
}

impl Muscle {
    /// Gains within their tuning ranges, a positive torque cap, tension
    /// in `[0, 1]`, and a near-unit target rotation.
    pub open spec fn wf(&self) -> bool {
        &&& 0 <= self.kp <= 2_000_000_000
        &&& 0 <= self.kd <= 200_000_000
        &&& 0 < self.max_torque <= 1_000_000_000
        &&& 0 <= self.strength <= FX_ONE
        &&& quat_in(self.target_rotation, QUAT_LIMIT as int)
    }

    /// A new muscle at full tension with an identity target.
    pub fn new(bone_id: BoneId, kp: i64, kd: i64, max_torque: i64) -> (r: Muscle)
        requires
            0 <= kp <= 2_000_000_000,
            0 <= kd <= 200_000_000,
            0 < max_torque <= 1_000_000_000,
        ensures
            r == (Muscle {
                bone_id,
                kp,
                kd,
                max_torque,
                target_rotation: crate::linalg::quat_identity_spec(),
                strength: FX_ONE,
            }),
            r.wf(),
    {
        Muscle {
            bone_id,
            kp,
            kd,
            max_torque,
            target_rotation: Quat::identity(),
            strength: FX_ONE,
        }
    }

    /// Replaces the target rotation.
    pub fn set_target(&mut self, rotation: Quat)
        requires
            quat_in(rotation, QUAT_LIMIT as int),
        ensures
            *final(self) == (Muscle { target_rotation: rotation, ..*old(self) }),
    {
        self.target_rotation = rotation;
    }

    /// Replaces the target rotation with one built from intrinsic x-y-z
    /// Euler angles, renormalized onto the unit sphere.
    pub fn set_target_euler(&mut self, pitch: i64, yaw: i64, roll: i64)
        requires
            -FX_PI <= pitch <= FX_PI,
            -FX_PI <= yaw <= FX_PI,
            -FX_PI <= roll <= FX_PI,
            old(self).wf(),
        ensures
            *final(self) == (Muscle {
                target_rotation: euler_target_spec(pitch as int, yaw as int, roll as int),
                ..*old(self)
            }),
            final(self).wf(),
    {
        let qx = Quat::from_rotation_x(pitch);
        let qy = Quat::from_rotation_y(yaw);
        let qz = Quat::from_rotation_z(roll);
        proof {
            crate::linalg::lemma_quat_mul_tight(qx, qy, FX_ONE as int, FX_ONE as int);
        }
        let q1 = qx.mul(qy);
        proof {
            crate::linalg::lemma_quat_mul_tight(q1, qz, 4_000_000, FX_ONE as int);
        }
        let q2 = q1.mul(qz);
        let t = crate::linalg::normalize4(q2.x, q2.y, q2.z, q2.w, Quat::identity());
        self.target_rotation = t;
    }

    /// The capped proportional-derivative law on an already-decomposed
    /// rotation error: the raw demand `kp axis angle - kd velocity` is
    /// scaled back onto the ball of radius `max_torque` if it exceeds
    /// it, then scaled by the muscle's own tension.
    pub fn pd_torque(&self, axis: Vec3, angle: i64, angular_velocity: Vec3) -> (r: Vec3)
        requires
            self.wf(),
            vec_in(axis, FX_ONE as int),
            fx_abs(angle as int) <= FX_PI,
            vec_in(angular_velocity, VEL_LIMIT as int),
        ensures
            r == pd_torque_spec(*self, axis, angle as int, angular_velocity),
            mag_sq(r) <= (self.max_torque as int) * (self.max_torque as int),
            vec_in(r, self.max_torque as int),
    {
        proof {
            lemma_pd_component(axis.x as int, angle as int, angular_velocity.x as int, *self);
            lemma_pd_component(axis.y as int, angle as int, angular_velocity.y as int, *self);
            lemma_pd_component(axis.z as int, angle as int, angular_velocity.z as int, *self);
        }
        let px = fx_mul(fx_mul(axis.x, angle), self.kp);
        let py = fx_mul(fx_mul(axis.y, angle), self.kp);
        let pz = fx_mul(fx_mul(axis.z, angle), self.kp);
        let dx = fx_mul(angular_velocity.x, self.kd);
        let dy = fx_mul(angular_velocity.y, self.kd);
        let dz = fx_mul(angular_velocity.z, self.kd);
        let v = Vec3 { x: px - dx, y: py - dy, z: pz - dz };
        let capped = v.clamp_magnitude(self.max_torque);
        proof {
            lemma_abs_sq(capped.x as int);
            lemma_abs_sq(capped.y as int);
            lemma_abs_sq(capped.z as int);
            assert((self.max_torque as int) * (self.max_torque as int) < ((self.max_torque as int)
                + 1) * ((self.max_torque as int) + 1)) by (nonlinear_arith)
                requires
                    self.max_torque as int > 0,
            ;
            lemma_lt_sq(fx_abs(capped.x as int), self.max_torque as int + 1);
            lemma_lt_sq(fx_abs(capped.y as int), self.max_torque as int + 1);
            lemma_lt_sq(fx_abs(capped.z as int), self.max_torque as int + 1);
            lemma_scale_keeps_cap(capped, self.strength, self.max_torque as int);
        }
        let r = Vec3 {
            x: fx_mul(capped.x, self.strength),
            y: fx_mul(capped.y, self.strength),
            z: fx_mul(capped.z, self.strength),
        };
        proof {
            lemma_abs_sq(r.x as int);
            lemma_abs_sq(r.y as int);
            lemma_abs_sq(r.z as int);
        }
        r
    }

    /// The full controller: measures the rotation error from the current
    /// rotation to the target, decomposes it to a shortest-path
    /// axis-angle correction, and applies the capped PD law. A relaxed
    /// muscle (tension under the cutoff) produces the zero vector for
    /// every input.
    pub fn calculate_torque(&self, current_rotation: Quat, angular_velocity: Vec3) -> (r: Vec3)
        requires
            self.wf(),
            quat_in(current_rotation, QUAT_LIMIT as int),
            vec_in(angular_velocity, VEL_LIMIT as int),
        ensures
            r == calc_torque_spec(*self, current_rotation, angular_velocity),
            self.strength < STRENGTH_CUTOFF ==> r == (Vec3 { x: 0i64, y: 0i64, z: 0i64 }),
            mag_sq(r) <= (self.max_torque as int) * (self.max_torque as int),
            vec_in(r, self.max_torque as int),
    {
        if self.strength < STRENGTH_CUTOFF {
            proof {
                lemma_abs_sq(self.max_torque as int);
            }
            return Vec3::zero();
        }
        let error_quat = self.target_rotation.mul(current_rotation.conjugate());
        let (axis, raw_angle) = error_quat.to_axis_angle();
        let angle = normalize_angle(raw_angle);
        self.pd_torque(axis, angle, angular_velocity)
    }
}

/// Kinematic state of one bone's body, read back from the simulation:
/// world position, world rotation, and angular velocity.
#[derive(Clone, Copy, Debug, PartialEq, Eq, Structural)]
pub struct BodyState {
    pub position: Vec3,
    pub rotation: Quat,
    pub angular_velocity: Vec3,
}

impl BodyState {
    /// The state lies within the fixed-point domain.
    pub open spec fn wf(&self) -> bool {
        &&& vec_in(self.position, 1_000_000_000_000)
        &&& quat_in(self.rotation, QUAT_LIMIT as int)
        &&& vec_in(self.angular_velocity, VEL_LIMIT as int)
    }
}

/// A snapshot of every bone's body, in creation order; a stale or unset
/// body reads back as absent and is silently skipped.
pub open spec fn states_wf(states: Seq<Option<BodyState>>) -> bool {
    &&& states.len() == 11
    &&& forall|i: int|
        0 <= i < 11 ==> match #[trigger] states[i] {
            Some(s) => s.wf(),
            None => true,
        }
}

/// The gains of one actuated bone: stiff, strong legs; a firm torso; a
/// soft head. Returns (kp, kd, max torque), micro-units.
pub open spec fn muscle_gains(b: BoneId) -> (int, int, int) {
    match b {
        BoneId::Spine => (800_000_000, 80_000_000, 500_000_000),
        BoneId::Head => (250_000_000, 25_000_000, 120_000_000),
        BoneId::LeftUpperArm => (400_000_000, 40_000_000, 200_000_000),
        BoneId::RightUpperArm => (400_000_000, 40_000_000, 200_000_000),
        BoneId::LeftLowerArm => (300_000_000, 30_000_000, 150_000_000),
        BoneId::RightLowerArm => (300_000_000, 30_000_000, 150_000_000),
        BoneId::LeftUpperLeg => (1_000_000_000, 100_000_000, 800_000_000),
        BoneId::RightUpperLeg => (1_000_000_000, 100_000_000, 800_000_000),
        BoneId::LeftLowerLeg => (800_000_000, 80_000_000, 600_000_000),
        BoneId::RightLowerLeg => (800_000_000, 80_000_000, 600_000_000),
        BoneId::Pelvis => (0, 0, 0),
    }
}

/// The initial muscle of one actuated bone.
pub open spec fn muscle_def(b: BoneId) -> Muscle {
    let g = muscle_gains(b);
    Muscle {
        bone_id: b,
        kp: g.0 as i64,
        kd: g.1 as i64,
        max_torque: g.2 as i64,
        target_rotation: crate::linalg::quat_identity_spec(),
        strength: FX_ONE,
    }
}

/// One muscle's contribution to a tick's batch: its controller output,
/// scaled by the global control-authority factor `g`.
pub open spec fn scaled_torque(m: Muscle, st: BodyState, g: int) -> Vec3 {
    let t = calc_torque_spec(m, st.rotation, st.angular_velocity);
    Vec3 {
        x: fx_mul_spec(t.x as int, g) as i64,
        y: fx_mul_spec(t.y as int, g) as i64,
        z: fx_mul_spec(t.z as int, g) as i64,
    }
}

/// One muscle per actuated bone - every bone but the pelvis root - plus
/// a single global control-authority factor scaling all torques
/// uniformly: zero is full ragdoll, one is full control.
pub struct MuscleSystem {
    pub muscles: Vec<Option<Muscle>>,
    pub global_strength: i64,
}

/// The torque batch one tick owes, over the first `n` bones in creation
/// order: one entry per bone that has both a muscle and a live body,
/// skipping the rest silently. The root at index zero never contributes.
pub open spec fn muscle_batch(sys: &MuscleSystem, states: Seq<Option<BodyState>>, n: int) -> Seq<
    (BoneId, Vec3),
>
    decreases n,
{
    if n <= 1 {
        Seq::empty()
    } else {
        let prefix = muscle_batch(sys, states, n - 1);
        match sys.muscles@[n - 1] {
            Some(m) => match states[n - 1] {
                Some(st) => prefix.push(
                    (
                        crate::skeleton::bone_order(n - 1),
                        scaled_torque(m, st, sys.global_strength as int),
                    ),
                ),
                None => prefix,
            },
            None => prefix,
        }
    }
}

/// The torque cap of the muscle on bone `b`, zero when it has none.
pub open spec fn muscle_cap(sys: &MuscleSystem, b: BoneId) -> int {
    match sys.muscles@[crate::skeleton::bone_index_spec(b)] {
        Some(m) => m.max_torque as int,
        None => 0,
    }
}

impl MuscleSystem {
    /// One slot per bone in creation order, the root empty and every
    /// other slot a well-formed muscle for its own bone; the global
    /// factor in `[0, 1]`.
    pub open spec fn wf(&self) -> bool {
        &&& self.muscles@.len() == 11
        &&& self.muscles@[0] is None
        &&& forall|i: int|
            1 <= i < 11 ==> match #[trigger] self.muscles@[i] {
                Some(m) => m.wf() && m.bone_id == crate::skeleton::bone_order(i),
                None => false,
            }
        &&& 0 <= self.global_strength <= FX_ONE
    }

    /// The humanoid muscle set at full control authority.
    pub fn create_humanoid() -> (r: MuscleSystem)
        ensures
            r.wf(),
            r.global_strength == FX_ONE,
            forall|i: int|
                1 <= i < 11 ==> #[trigger] r.muscles@[i] == Some(
                    muscle_def(crate::skeleton::bone_order(i)),
                ),
    {
        let mut muscles: Vec<Option<Muscle>> = Vec::new();
        muscles.push(None);
        muscles.push(Some(Muscle::new(BoneId::Spine, 800_000_000, 80_000_000, 500_000_000)));
        muscles.push(Some(Muscle::new(BoneId::Head, 250_000_000, 25_000_000, 120_000_000)));
        muscles.push(
            Some(Muscle::new(BoneId::LeftUpperArm, 400_000_000, 40_000_000, 200_000_000)),
        );
        muscles.push(
            Some(Muscle::new(BoneId::LeftLowerArm, 300_000_000, 30_000_000, 150_000_000)),
        );
        muscles.push(
            Some(Muscle::new(BoneId::RightUpperArm, 400_000_000, 40_000_000, 200_000_000)),
        );
        muscles.push(
            Some(Muscle::new(BoneId::RightLowerArm, 300_000_000, 30_000_000, 150_000_000)),
        );
        muscles.push(
            Some(Muscle::new(BoneId::LeftUpperLeg, 1_000_000_000, 100_000_000, 800_000_000)),
        );
        muscles.push(
            Some(Muscle::new(BoneId::LeftLowerLeg, 800_000_000, 80_000_000, 600_000_000)),
        );
        muscles.push(
            Some(Muscle::new(BoneId::RightUpperLeg, 1_000_000_000, 100_000_000, 800_000_000)),
        );
        muscles.push(
            Some(Muscle::new(BoneId::RightLowerLeg, 800_000_000, 80_000_000, 600_000_000)),
        );
        MuscleSystem { muscles, global_strength: FX_ONE }
    }

    /// Computes every muscle's torque for this tick: exactly one entry,
    /// in creation order, for each bone that has both a muscle and a
    /// live body, each the controller's output scaled by the global
    /// control-authority factor. With the factor at zero - ragdoll -
    /// every torque in the batch is the zero vector; none ever exceeds
    /// its muscle's cap.
    pub fn update(&self, states: &Vec<Option<BodyState>>) -> (r: Vec<(BoneId, Vec3)>)
        requires
            self.wf(),
            states_wf(states@),
        ensures
            r@ == muscle_batch(self, states@, 11),
            r@.len() <= 10,
            forall|j: int|
                0 <= j < r@.len() ==> (#[trigger] r@[j]).0 != BoneId::Pelvis && mag_sq(r@[j].1)
                    <= muscle_cap(self, r@[j].0) * muscle_cap(self, r@[j].0) && vec_in(
                    r@[j].1,
                    1_000_000_000,
                ),
            self.global_strength == 0 ==> forall|j: int|
                0 <= j < r@.len() ==> (#[trigger] r@[j]).1 == (Vec3 { x: 0i64, y: 0i64, z: 0i64 }),
    {
        let order = BoneId::all_bones();
        let mut out: Vec<(BoneId, Vec3)> = Vec::new();
        for i in 1..11usize
            invariant
                self.wf(),
                states_wf(states@),
                order@.len() == 11,
                forall|k: int| 0 <= k < 11 ==> #[trigger] order@[k] == crate::skeleton::bone_order(k),
                out@ == muscle_batch(self, states@, i as int),
                out@.len() <= i - 1,
                forall|j: int|
                    0 <= j < out@.len() ==> (#[trigger] out@[j]).0 != BoneId::Pelvis && mag_sq(
                        out@[j].1,
                    ) <= muscle_cap(self, out@[j].0) * muscle_cap(self, out@[j].0) && vec_in(
                        out@[j].1,
                        1_000_000_000,
                    ),
                self.global_strength == 0 ==> forall|j: int|
                    0 <= j < out@.len() ==> (#[trigger] out@[j]).1 == (Vec3 {
                        x: 0i64,
                        y: 0i64,
                        z: 0i64,
                    }),
        {
            let bone = order[i];
            proof {
                crate::skeleton::lemma_bone_tree();
            }
            if let Some(m) = &self.muscles[i] {
                if let Some(st) = &states[i] {
                    let t = m.calculate_torque(st.rotation, st.angular_velocity);
                    proof {
                        lemma_scale_keeps_cap(t, self.global_strength, m.max_torque as int);
                    }
                    let scaled = Vec3 {
                        x: fx_mul(t.x, self.global_strength),
                        y: fx_mul(t.y, self.global_strength),
                        z: fx_mul(t.z, self.global_strength),
                    };
                    proof {
                        if self.global_strength == 0 {
                            crate::fx::lemma_mul_zero(t.x as int);
                            crate::fx::lemma_mul_zero(t.y as int);
                            crate::fx::lemma_mul_zero(t.z as int);
                        }
                    }
                    out.push((bone, scaled));
                }
            }
            proof {
                assert(out@ =~= muscle_batch(self, states@, i + 1));
            }
        }
        out
    }

    /// Hands every muscle its target rotation from a full target pose.
    pub fn set_pose(&mut self, pose: &TargetPose)
        requires
            old(self).wf(),
            pose.wf(),
        ensures
            final(self).global_strength == old(self).global_strength,
            final(self).muscles@.len() == 11,
            forall|i: int|
                0 <= i < 11 ==> #[trigger] final(self).muscles@[i] == match old(
                    self,
                ).muscles@[i] {
                    None => None::<Muscle>,
                    Some(m) => Some(Muscle { target_rotation: pose.bone_rotations@[i], ..m }),
                },
            final(self).wf(),
    {
        for i in 0..11usize
            invariant
                pose.wf(),
                self.muscles@.len() == 11,
                self.global_strength == old(self).global_strength,
                0 <= self.global_strength <= FX_ONE,
                forall|j: int|
                    i <= j < 11 ==> #[trigger] self.muscles@[j] == old(self).muscles@[j],
                forall|j: int|
                    0 <= j < i ==> #[trigger] self.muscles@[j] == match old(self).muscles@[j] {
                        None => None::<Muscle>,
                        Some(m) => Some(
                            Muscle { target_rotation: pose.bone_rotations@[j], ..m },
                        ),
                    },
                old(self).wf(),
        {
            let cur = self.muscles[i];
            match cur {
                Some(mut m) => {
                    m.set_target(pose.bone_rotations[i]);
                    self.muscles.set(i, Some(m));
                },
                None => {},
            }
        }
    }

    /// Sets one muscle's own tension, clamped into `[0, 1]`; every other
    /// muscle is untouched.
    pub fn set_muscle_strength(&mut self, bone_id: BoneId, strength: i64)
        requires
            old(self).wf(),
        ensures
            final(self).global_strength == old(self).global_strength,
            final(self).muscles@.len() == 11,
            forall|j: int|
                0 <= j < 11 && j != crate::skeleton::bone_index_spec(bone_id)
                    ==> #[trigger] final(self).muscles@[j] == old(self).muscles@[j],
            final(self).muscles@[crate::skeleton::bone_index_spec(bone_id)] == match old(
                self,
            ).muscles@[crate::skeleton::bone_index_spec(bone_id)] {
                None => None::<Muscle>,
                Some(m) => Some(
                    Muscle { strength: fx_clamp_spec(strength as int, 0, FX_ONE as int) as i64, ..m },
                ),
            },
            final(self).wf(),
    {
        let i = bone_id.index();
        let cur = self.muscles[i];
        match cur {
            Some(mut m) => {
                m.strength = fx_clamp(strength, 0, FX_ONE);
                self.muscles.set(i, Some(m));
            },
            None => {},
        }
    }

    /// Cuts all control authority at once: pure ragdoll.
    pub fn go_ragdoll(&mut self)
        ensures
            final(self).global_strength == 0,
            final(self).muscles == old(self).muscles,
    {
        self.global_strength = 0;
    }

    /// Restores full control authority.
    pub fn recover(&mut self)
        ensures
            final(self).global_strength == FX_ONE,
            final(self).muscles == old(self).muscles,
    {
        self.global_strength = FX_ONE;
    }
}

/// A complete target pose: one local target rotation per bone, identity
/// by default; produced fresh each frame and only ever combined through
/// `lerp`.
#[derive(Clone, Debug)]
pub struct TargetPose {
    pub bone_rotations: Vec<Quat>,
}

/// The reference T-pose rotation of each bone: arms straight out.
pub open spec fn t_pose_rot(b: BoneId) -> Quat {
    match b {
        BoneId::LeftUpperArm => crate::linalg::rot_z_spec(-crate::fx::FX_HALF_PI as int),
        BoneId::RightUpperArm => crate::linalg::rot_z_spec(crate::fx::FX_HALF_PI as int),
        _ => crate::linalg::quat_identity_spec(),
    }
}

/// The standing rest pose: arms slightly lowered, elbows slightly bent.
pub open spec fn standing_rot(b: BoneId) -> Quat {
    match b {
        BoneId::LeftUpperArm => crate::linalg::rot_z_spec(-300_000),
        BoneId::RightUpperArm => crate::linalg::rot_z_spec(300_000),
        BoneId::LeftLowerArm => crate::linalg::rot_x_spec(200_000),
        BoneId::RightLowerArm => crate::linalg::rot_x_spec(200_000),
        _ => crate::linalg::quat_identity_spec(),
    }
}

impl TargetPose {
    /// One near-unit rotation per bone.
    pub open spec fn wf(&self) -> bool {
        &&& self.bone_rotations@.len() == 11
        &&& forall|i: int|
            0 <= i < 11 ==> quat_in(#[trigger] self.bone_rotations@[i], QUAT_LIMIT as int)
    }

    /// The neutral T-pose: everything at identity, arms straight out to
    /// the sides.
    pub fn t_pose() -> (r: TargetPose)
        ensures
            r.wf(),
            forall|i: int|
                0 <= i < 11 ==> #[trigger] r.bone_rotations@[i] == t_pose_rot(
                    crate::skeleton::bone_order(i),
                ),
    {
        let mut rotations: Vec<Quat> = Vec::new();
        let id = Quat::identity();
        rotations.push(id);
        rotations.push(id);
        rotations.push(id);
        rotations.push(Quat::from_rotation_z(-crate::fx::FX_HALF_PI));
        rotations.push(id);
        rotations.push(Quat::from_rotation_z(crate::fx::FX_HALF_PI));
        rotations.push(id);
        rotations.push(id);
        rotations.push(id);
        rotations.push(id);
        rotations.push(id);
        TargetPose { bone_rotations: rotations }
    }

    /// The standing rest pose: arms slightly lowered, elbows slightly
    /// bent.
    pub fn standing() -> (r: TargetPose)
        ensures
            r.wf(),
            forall|i: int|
                0 <= i < 11 ==> #[trigger] r.bone_rotations@[i] == standing_rot(
                    crate::skeleton::bone_order(i),
                ),
    {
        let mut rotations: Vec<Quat> = Vec::new();
        let id = Quat::identity();
        rotations.push(id);
        rotations.push(id);
        rotations.push(id);
        rotations.push(Quat::from_rotation_z(-300_000));
        rotations.push(Quat::from_rotation_x(200_000));
        rotations.push(Quat::from_rotation_z(300_000));
        rotations.push(Quat::from_rotation_x(200_000));
        rotations.push(id);
        rotations.push(id);
        rotations.push(id);
        rotations.push(id);
        TargetPose { bone_rotations: rotations }
    }

    /// The target rotation of one bone.
    pub fn rotation(&self, bone: BoneId) -> (r: Quat)
        requires
            self.wf(),
        ensures
            r == self.bone_rotations@[crate::skeleton::bone_index_spec(bone)],
    {
        self.bone_rotations[bone.index()]
    }

    /// Interpolates between two poses bone by bone along the shortest
    /// arc: at `t == 0` the first pose is returned exactly, at
    /// `t == FX_ONE` the second, bone by bone up to quaternion sign.
    pub fn lerp(a: &TargetPose, b: &TargetPose, t: i64) -> (r: TargetPose)
        requires
            a.wf(),
            b.wf(),
            0 <= t <= FX_ONE,
        ensures
            r.wf(),
            forall|i: int|
                0 <= i < 11 ==> #[trigger] r.bone_rotations@[i] == crate::linalg::slerp_spec(
                    a.bone_rotations@[i],
                    b.bone_rotations@[i],
                    t as int,
                ),
            forall|i: int|
                0 <= i < 11 && t == 0 ==> #[trigger] r.bone_rotations@[i] == a.bone_rotations@[i],
            forall|i: int|
                0 <= i < 11 && t == FX_ONE ==> #[trigger] r.bone_rotations@[i]
                    == b.bone_rotations@[i] || r.bone_rotations@[i] == crate::linalg::quat_neg_spec(
                    b.bone_rotations@[i],
                ),
    {
        let mut rotations: Vec<Quat> = Vec::new();
        for i in 0..11usize
            invariant
                a.wf(),
                b.wf(),
                0 <= t <= FX_ONE,
                rotations@.len() == i,
                forall|j: int|
                    0 <= j < i ==> quat_in(#[trigger] rotations@[j], QUAT_LIMIT as int),
                forall|j: int|
                    0 <= j < i ==> #[trigger] rotations@[j] == crate::linalg::slerp_spec(
                        a.bone_rotations@[j],
                        b.bone_rotations@[j],
                        t as int,
                    ),
                forall|j: int|
                    0 <= j < i && t == 0 ==> #[trigger] rotations@[j] == a.bone_rotations@[j],
                forall|j: int|
                    0 <= j < i && t == FX_ONE ==> #[trigger] rotations@[j] == b.bone_rotations@[j]
                        || rotations@[j] == crate::linalg::quat_neg_spec(b.bone_rotations@[j]),
        {
            rotations.push(a.bone_rotations[i].slerp(b.bone_rotations[i], t));
        }
        TargetPose { bone_rotations: rotations }
    }
}

/// The eased cycle position mapped onto a full turn of micro-radians.
pub open spec fn walk_phase_rad(w: &WalkCycle) -> int {
    fx_mul_spec(smooth_step_spec(w.phase as int), FX_TAU as int)
}

/// The forward-back swing of the legs this instant: the sine of the
/// eased phase, scaled by the stride length.
pub open spec fn walk_leg_swing(w: &WalkCycle) -> int {
    fx_mul_spec(crate::fx::sin_spec(walk_phase_rad(w)), w.stride_length as int)
}

/// The counter-phase swing of the arms this instant.
pub open spec fn walk_arm_swing(w: &WalkCycle) -> int {
    fx_mul_spec(crate::fx::sin_spec(walk_phase_rad(w)), w.arm_swing_amount as int)
}

/// The torso twist this instant.
pub open spec fn walk_torso_twist(w: &WalkCycle) -> int {
    fx_mul_spec(crate::fx::sin_spec(walk_phase_rad(w)), 100_000)
}

/// The forward torso lean: proportional to speed, saturating at one.
pub open spec fn walk_forward_lean(w: &WalkCycle) -> int {
    let ratio = crate::fx::fx_div_spec(w.speed as int, 3_000_000);
    let capped = if ratio > FX_ONE as int {
        FX_ONE as int
    } else {
        ratio
    };
    -fx_mul_spec(w.spine_lean_forward as int, capped)
}

/// Knee flexion gated by the swing sign: a leg bends its knee only while
/// swinging backward, in proportion to the swing, capped at 1.2 radians.
pub open spec fn walk_knee_bend(swing_back: int, step_height: int) -> int {
    let lifted = if swing_back > 0 {
        swing_back
    } else {
        0
    };
    let bend = fx_mul_spec(lifted, 1_500_000 + step_height);
    if bend > 1_200_000 {
        1_200_000
    } else {
        bend
    }
}

/// The walking pose of one bone at the cycle's current instant.
pub open spec fn walk_pose_rot(w: &WalkCycle, b: BoneId) -> Quat {
    match b {
        BoneId::Pelvis => crate::linalg::quat_identity_spec(),
        BoneId::Spine => crate::linalg::quat_mul_spec(
            crate::linalg::rot_x_spec(walk_forward_lean(w)),
            crate::linalg::rot_y_spec(walk_torso_twist(w)),
        ),
        BoneId::Head => crate::linalg::quat_identity_spec(),
        BoneId::LeftUpperArm => crate::linalg::quat_mul_spec(
            crate::linalg::rot_z_spec(-200_000),
            crate::linalg::rot_x_spec(walk_arm_swing(w)),
        ),
        BoneId::RightUpperArm => crate::linalg::quat_mul_spec(
            crate::linalg::rot_z_spec(200_000),
            crate::linalg::rot_x_spec(-walk_arm_swing(w)),
        ),
        BoneId::LeftLowerArm => crate::linalg::rot_x_spec(300_000),
        BoneId::RightLowerArm => crate::linalg::rot_x_spec(300_000),
        BoneId::LeftUpperLeg => crate::linalg::rot_x_spec(-walk_leg_swing(w)),
        BoneId::RightUpperLeg => crate::linalg::rot_x_spec(walk_leg_swing(w)),
        BoneId::LeftLowerLeg => crate::linalg::rot_x_spec(
            walk_knee_bend(-walk_leg_swing(w), w.step_height as int),
        ),
        BoneId::RightLowerLeg => crate::linalg::rot_x_spec(
            walk_knee_bend(walk_leg_swing(w), w.step_height as int),
        ),
    }
}

/// The procedural walk cycle: a phase in `[0, 1)` advanced while
/// walking, and the tunable amplitudes of the gait it generates.
#[derive(Clone, Copy, Debug, PartialEq, Eq, Structural)]
pub struct WalkCycle {
    pub phase: i64,
    pub speed: i64,
    pub stride_length: i64,
    pub step_height: i64,
    pub hip_sway: i64,
    pub spine_lean_forward: i64,
    pub arm_swing_amount: i64,
}

impl WalkCycle {
    /// Phase within its cycle and every amplitude within its range.
    pub open spec fn wf(&self) -> bool {
        &&& 0 <= self.phase < FX_ONE
        &&& 0 <= self.speed <= 100_000_000
        &&& 0 <= self.stride_length <= FX_PI
        &&& 0 <= self.step_height <= FX_ONE
        &&& 0 <= self.hip_sway <= FX_ONE
        &&& 0 <= self.spine_lean_forward <= FX_ONE
        &&& 0 <= self.arm_swing_amount <= FX_ONE
    }

    /// The default gait: about two steps per second at walking speed.
    pub fn new() -> (r: WalkCycle)
        ensures
            r == (WalkCycle {
                phase: 0i64,
                speed: FX_ONE,
                stride_length: 500_000i64,
                step_height: 150_000i64,
                hip_sway: 50_000i64,
                spine_lean_forward: 100_000i64,
                arm_swing_amount: 300_000i64,
            }),
            r.wf(),
    {
        WalkCycle {
            phase: 0,
            speed: FX_ONE,
            stride_length: 500_000,
            step_height: 150_000,
            hip_sway: 50_000,
            spine_lean_forward: 100_000,
            arm_swing_amount: 300_000,
        }
    }

    /// Advances the phase at a speed-scaled rate - about two steps per
    /// second - only while walking; while not walking the cycle is left
    /// exactly as it was, phase included, whatever the tick length.
    /// A walking tick must advance the cycle by less than one full turn.
    pub fn update(&mut self, delta: i64, is_walking: bool)
        requires
            old(self).wf(),
            0 <= delta <= 1_000_000_000,
            is_walking ==> 2 * fx_mul_spec(delta as int, old(self).speed as int) < FX_ONE,
        ensures
            !is_walking ==> *final(self) == *old(self),
            is_walking ==> *final(self) == (WalkCycle {
                phase: walk_next_phase(old(self), delta as int) as i64,
                ..*old(self)
            }),
            final(self).wf(),
    {
        if is_walking {
            proof {
                lemma_mul_le(
                    fx_abs(delta as int),
                    fx_abs(self.speed as int),
                    1_000_000_000,
                    100_000_000,
                );
                lemma_mul_abs_le(delta as int, self.speed as int, 1_000_000_000, 100_000_000);
                crate::fx::lemma_div_mul_le(
                    fx_abs(delta as int) * fx_abs(self.speed as int),
                    FX_ONE as int,
                );
            }
            let adv = 2 * fx_mul(delta, self.speed);
            self.phase = self.phase + adv;
            if self.phase >= FX_ONE {
                self.phase = self.phase - FX_ONE;
            }
        }
    }

    /// Generates the target pose for the current phase: alternating leg
    /// swing with sign-gated knee flexion, counter-phase arm swing with
    /// steady elbows, and a torso twist with a speed-proportional
    /// forward lean.
    pub fn get_pose(&self) -> (r: TargetPose)
        requires
            self.wf(),
        ensures
            r.wf(),
            forall|i: int|
                0 <= i < 11 ==> #[trigger] r.bone_rotations@[i] == walk_pose_rot(
                    self,
                    crate::skeleton::bone_order(i),
                ),
    {
        let smoothed = smooth_step(self.phase);
        proof {
            lemma_mul_le(fx_abs(smoothed as int), fx_abs(FX_TAU as int), 1_000_000, 6_283_185);
            lemma_mul_abs_le(smoothed as int, FX_TAU as int, 1_000_000, 6_283_185);
            crate::fx::lemma_div_mul_le(
                fx_abs(smoothed as int) * fx_abs(FX_TAU as int),
                FX_ONE as int,
            );
        }
        let phase_rad = fx_mul(smoothed, FX_TAU);
        let sin_val = crate::fx::sin_fx(phase_rad);
        proof {
            lemma_mul_le(
                fx_abs(sin_val as int),
                fx_abs(self.stride_length as int),
                1_000_000,
                FX_PI as int,
            );
            lemma_mul_abs_le(sin_val as int, self.stride_length as int, 1_000_000, FX_PI as int);
            lemma_mul_le(
                fx_abs(sin_val as int),
                fx_abs(self.arm_swing_amount as int),
                1_000_000,
                FX_ONE as int,
            );
            lemma_mul_abs_le(
                sin_val as int,
                self.arm_swing_amount as int,
                1_000_000,
                FX_ONE as int,
            );
            lemma_mul_le(fx_abs(sin_val as int), fx_abs(100_000int), 1_000_000, 100_000);
            lemma_mul_abs_le(sin_val as int, 100_000, 1_000_000, 100_000);
        }
        let leg_swing = fx_mul(sin_val, self.stride_length);
        let arm_swing = fx_mul(sin_val, self.arm_swing_amount);
        let torso_twist = fx_mul(sin_val, 100_000);
        let ratio_raw = crate::fx::fx_div(self.speed, 3_000_000);
        proof {
            crate::fx::lemma_div_mono(
                fx_abs(self.speed as int) * (FX_ONE as int),
                100_000_000 * (FX_ONE as int),
                3_000_000,
            );
        }
        let ratio = if ratio_raw > FX_ONE {
            FX_ONE
        } else {
            ratio_raw
        };
        proof {
            lemma_mul_le(
                fx_abs(self.spine_lean_forward as int),
                fx_abs(ratio as int),
                FX_ONE as int,
                FX_ONE as int,
            );
            lemma_mul_abs_le(
                self.spine_lean_forward as int,
                ratio as int,
                FX_ONE as int,
                FX_ONE as int,
            );
        }
        let forward_lean = -fx_mul(self.spine_lean_forward, ratio);
        let knee_left = knee_bend_exec(-leg_swing, self.step_height);
        let knee_right = knee_bend_exec(leg_swing, self.step_height);
        let q_spine_x = Quat::from_rotation_x(forward_lean);
        let q_spine_y = Quat::from_rotation_y(torso_twist);
        proof {
            lemma_sparse_mul_xy(q_spine_x, q_spine_y);
        }
        let q_spine = q_spine_x.mul(q_spine_y);
        let q_lua_z = Quat::from_rotation_z(-200_000);
        let q_lua_x = Quat::from_rotation_x(arm_swing);
        proof {
            lemma_sparse_mul_zx(q_lua_z, q_lua_x);
        }
        let q_lua = q_lua_z.mul(q_lua_x);
        let q_rua_z = Quat::from_rotation_z(200_000);
        let q_rua_x = Quat::from_rotation_x(-arm_swing);
        proof {
            lemma_sparse_mul_zx(q_rua_z, q_rua_x);
        }
        let q_rua = q_rua_z.mul(q_rua_x);
        let id = Quat::identity();
        let mut rotations: Vec<Quat> = Vec::new();
        rotations.push(id);
        rotations.push(q_spine);
        rotations.push(id);
        rotations.push(q_lua);
        rotations.push(Quat::from_rotation_x(300_000));
        rotations.push(q_rua);
        rotations.push(Quat::from_rotation_x(300_000));
        rotations.push(Quat::from_rotation_x(-leg_swing));
        rotations.push(Quat::from_rotation_x(knee_left));
        rotations.push(Quat::from_rotation_x(leg_swing));
        rotations.push(Quat::from_rotation_x(knee_right));
        TargetPose { bone_rotations: rotations }
    }
}

impl Default for WalkCycle {
    /// The default gait.
    fn default() -> (r: WalkCycle)
        ensures
            r.wf(),
            r.phase == 0,
    {
        WalkCycle::new()
    }
}

/// The next phase after one walking tick: advanced by twice the
/// speed-scaled delta, wrapped once at a full cycle.
pub open spec fn walk_next_phase(w: &WalkCycle, delta: int) -> int {
    let np = w.phase as int + 2 * fx_mul_spec(delta, w.speed as int);
    if np >= FX_ONE as int {
        np - FX_ONE as int
    } else {
        np
    }
}

/// Sign-gated knee flexion, executable form.
fn knee_bend_exec(swing_back: i64, step_height: i64) -> (r: i64)
    requires
        fx_abs(swing_back as int) <= FX_PI,
        0 <= step_height <= FX_ONE,
    ensures
        r as int == walk_knee_bend(swing_back as int, step_height as int),
        0 <= r <= 1_200_000,
{
    let lifted = if swing_back > 0 {
        swing_back
    } else {
        0
    };
    proof {
        lemma_mul_le(
            fx_abs(lifted as int),
            fx_abs(1_500_000 + step_height as int),
            FX_PI as int,
            2_500_000,
        );
        lemma_mul_abs_le(
            lifted as int,
            1_500_000 + step_height as int,
            FX_PI as int,
            2_500_000,
        );
        crate::fx::lemma_div_mul_le(
            fx_abs(lifted as int) * fx_abs(1_500_000 + step_height as int),
            FX_ONE as int,
        );
    }
    let bend = fx_mul(lifted, 1_500_000 + step_height);
    if bend > 1_200_000 {
        1_200_000
    } else {
        bend
    }
}

/// The product of a z-axis rotation and an x-axis rotation has every
/// component no larger than one: three of the four pairwise products in
/// each component vanish on a zero operand.
proof fn lemma_sparse_mul_zx(a: Quat, b: Quat)
    requires
        quat_in(a, FX_ONE as int),
        quat_in(b, FX_ONE as int),
        a.x == 0,
        a.y == 0,
        b.y == 0,
        b.z == 0,
    ensures
        fx_abs(crate::linalg::quat_mul_x(a, b)) <= FX_ONE,
        fx_abs(crate::linalg::quat_mul_y(a, b)) <= FX_ONE,
        fx_abs(crate::linalg::quat_mul_z(a, b)) <= FX_ONE,
        fx_abs(crate::linalg::quat_mul_w(a, b)) <= FX_ONE,
{
    lemma_sparse_terms(a, b);
}

/// The product of an x-axis rotation and a y-axis rotation has every
/// component no larger than one.
proof fn lemma_sparse_mul_xy(a: Quat, b: Quat)
    requires
        quat_in(a, FX_ONE as int),
        quat_in(b, FX_ONE as int),
        a.y == 0,
        a.z == 0,
        b.x == 0,
        b.z == 0,
    ensures
        fx_abs(crate::linalg::quat_mul_x(a, b)) <= FX_ONE,
        fx_abs(crate::linalg::quat_mul_y(a, b)) <= FX_ONE,
        fx_abs(crate::linalg::quat_mul_z(a, b)) <= FX_ONE,
        fx_abs(crate::linalg::quat_mul_w(a, b)) <= FX_ONE,
{
    lemma_sparse_terms(a, b);
}

/// All sixteen pairwise fixed-point products of two near-unit
/// quaternions are near-unit, and any with a zero operand vanish.
proof fn lemma_sparse_terms(a: Quat, b: Quat)
    requires
        quat_in(a, FX_ONE as int),
        quat_in(b, FX_ONE as int),
    ensures
        fx_abs(fx_mul_spec(a.w as int, b.x as int)) <= FX_ONE,
        fx_abs(fx_mul_spec(a.x as int, b.w as int)) <= FX_ONE,
        fx_abs(fx_mul_spec(a.y as int, b.z as int)) <= FX_ONE,
        fx_abs(fx_mul_spec(a.z as int, b.y as int)) <= FX_ONE,
        fx_abs(fx_mul_spec(a.w as int, b.y as int)) <= FX_ONE,
        fx_abs(fx_mul_spec(a.x as int, b.z as int)) <= FX_ONE,
        fx_abs(fx_mul_spec(a.y as int, b.w as int)) <= FX_ONE,
        fx_abs(fx_mul_spec(a.z as int, b.x as int)) <= FX_ONE,
        fx_abs(fx_mul_spec(a.w as int, b.z as int)) <= FX_ONE,
        fx_abs(fx_mul_spec(a.x as int, b.y as int)) <= FX_ONE,
        fx_abs(fx_mul_spec(a.y as int, b.x as int)) <= FX_ONE,
        fx_abs(fx_mul_spec(a.z as int, b.w as int)) <= FX_ONE,
        fx_abs(fx_mul_spec(a.w as int, b.w as int)) <= FX_ONE,
        fx_abs(fx_mul_spec(a.x as int, b.x as int)) <= FX_ONE,
        fx_abs(fx_mul_spec(a.y as int, b.y as int)) <= FX_ONE,
        fx_abs(fx_mul_spec(a.z as int, b.z as int)) <= FX_ONE,
        a.x == 0 ==> fx_mul_spec(a.x as int, b.w as int) == 0 && fx_mul_spec(a.x as int, b.z as int)
            == 0 && fx_mul_spec(a.x as int, b.y as int) == 0 && fx_mul_spec(
            a.x as int,
            b.x as int,
        ) == 0,
        a.y == 0 ==> fx_mul_spec(a.y as int, b.z as int) == 0 && fx_mul_spec(a.y as int, b.w as int)
            == 0 && fx_mul_spec(a.y as int, b.x as int) == 0 && fx_mul_spec(
            a.y as int,
            b.y as int,
        ) == 0,
        a.z == 0 ==> fx_mul_spec(a.z as int, b.y as int) == 0 && fx_mul_spec(a.z as int, b.x as int)
            == 0 && fx_mul_spec(a.z as int, b.w as int) == 0 && fx_mul_spec(
            a.z as int,
            b.z as int,
        ) == 0,
        b.x == 0 ==> fx_mul_spec(a.w as int, b.x as int) == 0 && fx_mul_spec(a.z as int, b.x as int)
            == 0 && fx_mul_spec(a.y as int, b.x as int) == 0 && fx_mul_spec(
            a.x as int,
            b.x as int,
        ) == 0,
        b.y == 0 ==> fx_mul_spec(a.z as int, b.y as int) == 0 && fx_mul_spec(a.w as int, b.y as int)
            == 0 && fx_mul_spec(a.x as int, b.y as int) == 0 && fx_mul_spec(
            a.y as int,
            b.y as int,
        ) == 0,
        b.z == 0 ==> fx_mul_spec(a.y as int, b.z as int) == 0 && fx_mul_spec(a.x as int, b.z as int)
            == 0 && fx_mul_spec(a.w as int, b.z as int) == 0 && fx_mul_spec(
            a.z as int,
            b.z as int,
        ) == 0,
{
    lemma_mul_abs_le(a.w as int, b.x as int, FX_ONE as int, FX_ONE as int);
    lemma_mul_abs_le(a.x as int, b.w as int, FX_ONE as int, FX_ONE as int);
    lemma_mul_abs_le(a.y as int, b.z as int, FX_ONE as int, FX_ONE as int);
    lemma_mul_abs_le(a.z as int, b.y as int, FX_ONE as int, FX_ONE as int);
    lemma_mul_abs_le(a.w as int, b.y as int, FX_ONE as int, FX_ONE as int);
    lemma_mul_abs_le(a.x as int, b.z as int, FX_ONE as int, FX_ONE as int);
    lemma_mul_abs_le(a.y as int, b.w as int, FX_ONE as int, FX_ONE as int);
    lemma_mul_abs_le(a.z as int, b.x as int, FX_ONE as int, FX_ONE as int);
    lemma_mul_abs_le(a.w as int, b.z as int, FX_ONE as int, FX_ONE as int);
    lemma_mul_abs_le(a.x as int, b.y as int, FX_ONE as int, FX_ONE as int);
    lemma_mul_abs_le(a.y as int, b.x as int, FX_ONE as int, FX_ONE as int);
    lemma_mul_abs_le(a.z as int, b.w as int, FX_ONE as int, FX_ONE as int);
    lemma_mul_abs_le(a.w as int, b.w as int, FX_ONE as int, FX_ONE as int);
    lemma_mul_abs_le(a.x as int, b.x as int, FX_ONE as int, FX_ONE as int);
    lemma_mul_abs_le(a.y as int, b.y as int, FX_ONE as int, FX_ONE as int);
    lemma_mul_abs_le(a.z as int, b.z as int, FX_ONE as int, FX_ONE as int);
    crate::fx::lemma_mul_zero(a.w as int);
    crate::fx::lemma_mul_zero(a.x as int);
    crate::fx::lemma_mul_zero(a.y as int);
    crate::fx::lemma_mul_zero(a.z as int);
    crate::fx::lemma_mul_zero(b.w as int);
    crate::fx::lemma_mul_zero(b.x as int);
    crate::fx::lemma_mul_zero(b.y as int);
    crate::fx::lemma_mul_zero(b.z as int);
}

/// Scaling a torque by a factor in `[0, 1]` keeps it inside its cap.
proof fn lemma_scale_keeps_cap(t: Vec3, s: i64, cap: int)
    requires
        0 <= s <= FX_ONE,
        vec_in(t, 1_000_000_000),
        mag_sq(t) <= cap * cap,
    ensures
        fx_abs(t.x as int) * fx_abs(s as int) <= (FX_ONE as int) * (i64::MAX as int),
        fx_abs(t.y as int) * fx_abs(s as int) <= (FX_ONE as int) * (i64::MAX as int),
        fx_abs(t.z as int) * fx_abs(s as int) <= (FX_ONE as int) * (i64::MAX as int),
        fx_abs(fx_mul_spec(t.x as int, s as int)) <= fx_abs(t.x as int),
        fx_abs(fx_mul_spec(t.y as int, s as int)) <= fx_abs(t.y as int),
        fx_abs(fx_mul_spec(t.z as int, s as int)) <= fx_abs(t.z as int),
        fx_abs(fx_mul_spec(t.x as int, s as int)) <= 1_000_000_000,
        fx_abs(fx_mul_spec(t.y as int, s as int)) <= 1_000_000_000,
        fx_abs(fx_mul_spec(t.z as int, s as int)) <= 1_000_000_000,
        (fx_mul_spec(t.x as int, s as int)) * (fx_mul_spec(t.x as int, s as int)) + (fx_mul_spec(
            t.y as int,
            s as int,
        )) * (fx_mul_spec(t.y as int, s as int)) + (fx_mul_spec(t.z as int, s as int)) * (
        fx_mul_spec(t.z as int, s as int)) <= cap * cap,
{
    lemma_mul_le(fx_abs(t.x as int), fx_abs(s as int), 1_000_000_000, FX_ONE as int);
    lemma_mul_le(fx_abs(t.y as int), fx_abs(s as int), 1_000_000_000, FX_ONE as int);
    lemma_mul_le(fx_abs(t.z as int), fx_abs(s as int), 1_000_000_000, FX_ONE as int);
    lemma_shrink(t.x as int, s as int);
    lemma_shrink(t.y as int, s as int);
    lemma_shrink(t.z as int, s as int);
    lemma_abs_sq(t.x as int);
    lemma_abs_sq(t.y as int);
    lemma_abs_sq(t.z as int);
    lemma_abs_sq(fx_mul_spec(t.x as int, s as int));
    lemma_abs_sq(fx_mul_spec(t.y as int, s as int));
    lemma_abs_sq(fx_mul_spec(t.z as int, s as int));
    crate::fx::lemma_sq_mono(fx_abs(fx_mul_spec(t.x as int, s as int)), fx_abs(t.x as int));
    crate::fx::lemma_sq_mono(fx_abs(fx_mul_spec(t.y as int, s as int)), fx_abs(t.y as int));
    crate::fx::lemma_sq_mono(fx_abs(fx_mul_spec(t.z as int, s as int)), fx_abs(t.z as int));
}

/// A factor of magnitude at most one shrinks a fixed-point product.
proof fn lemma_shrink(t: int, s: int)
    requires
        fx_abs(s) <= FX_ONE,
    ensures
        fx_abs(fx_mul_spec(t, s)) <= fx_abs(t),
{
    assert((fx_abs(t) * fx_abs(s)) / (FX_ONE as int) <= fx_abs(t)) by (nonlinear_arith)
        requires
            0 <= fx_abs(t),
            0 <= fx_abs(s) <= FX_ONE as int,
            FX_ONE == 1_000_000i64,
    ;
}

/// Every intermediate of one PD component fits its register, and the
/// component is bounded by its operand bounds.
proof fn lemma_pd_component(ax: int, angle: int, w: int, m: Muscle)
    requires
        m.wf(),
        fx_abs(ax) <= FX_ONE,
        fx_abs(angle) <= FX_PI,
        fx_abs(w) <= VEL_LIMIT,
    ensures
        fx_abs(ax) * fx_abs(angle) <= (FX_ONE as int) * (i64::MAX as int),
        fx_abs(fx_mul_spec(ax, angle)) <= 3_141_593,
        fx_abs(fx_mul_spec(ax, angle)) * fx_abs(m.kp as int) <= (FX_ONE as int) * (
        i64::MAX as int),
        fx_abs(fx_mul_spec(fx_mul_spec(ax, angle), m.kp as int)) <= 6_283_186_000_000,
        fx_abs(w) * fx_abs(m.kd as int) <= (FX_ONE as int) * (i64::MAX as int),
        fx_abs(fx_mul_spec(w, m.kd as int)) <= 200_000_000_000_000,
        fx_abs(
            fx_mul_spec(fx_mul_spec(ax, angle), m.kp as int) - fx_mul_spec(w, m.kd as int),
        ) <= 206_283_186_000_000,
{
    lemma_mul_le(fx_abs(ax), fx_abs(angle), FX_ONE as int, FX_PI as int);
    lemma_mul_abs_le(ax, angle, FX_ONE as int, FX_PI as int);
    lemma_mul_le(fx_abs(fx_mul_spec(ax, angle)), fx_abs(m.kp as int), 3_141_593, 2_000_000_000);
    lemma_mul_abs_le(fx_mul_spec(ax, angle), m.kp as int, 3_141_593, 2_000_000_000);
    lemma_mul_le(fx_abs(w), fx_abs(m.kd as int), VEL_LIMIT as int, 200_000_000);
    lemma_mul_abs_le(w, m.kd as int, VEL_LIMIT as int, 200_000_000);
}

} // verus!
