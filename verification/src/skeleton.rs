//! The articulated humanoid skeleton: bone identities, geometry, joint
//! anchors and limits, and the construction plan the physics engine
//! executes.
//!
//! The skeleton itself owns no engine memory; it produces, in strict
//! parent-before-child order, one body plan per bone and one joint plan
//! per non-root bone, each pinned to the anatomical constants below.

use vstd::prelude::*;

use crate::fx::FX_ONE;
use crate::fx::FX_PI;
use crate::fx::fx_abs;
use crate::fx::fx_mul_spec;
use crate::fx::fx_mul;
use crate::linalg::Quat;
use crate::linalg::Vec3;
use crate::linalg::fx_half;
use crate::linalg::quat_identity_spec;
use crate::linalg::vec_in;

verus! {

/// Identity of one rigid segment of the character.
#[derive(Clone, Copy, Debug, PartialEq, Eq, Structural)]
pub enum BoneId {
    Pelvis,
    Spine,
    Head,
    LeftUpperArm,
    LeftLowerArm,
    RightUpperArm,
    RightLowerArm,
    LeftUpperLeg,
    LeftLowerLeg,
    RightUpperLeg,
    RightLowerLeg,
}

/// How many bones the skeleton has.
pub const BONE_COUNT: usize = 11;

/// The creation order: parents strictly before children.
pub open spec fn bone_order(i: int) -> BoneId {
    if i == 0 {
        BoneId::Pelvis
    } else if i == 1 {
        BoneId::Spine
    } else if i == 2 {
        BoneId::Head
    } else if i == 3 {
        BoneId::LeftUpperArm
    } else if i == 4 {
        BoneId::LeftLowerArm
    } else if i == 5 {
        BoneId::RightUpperArm
    } else if i == 6 {
        BoneId::RightLowerArm
    } else if i == 7 {
        BoneId::LeftUpperLeg
    } else if i == 8 {
        BoneId::LeftLowerLeg
    } else if i == 9 {
        BoneId::RightUpperLeg
    } else {
        BoneId::RightLowerLeg
    }
}

/// Position of a bone in the creation order.
pub open spec fn bone_index_spec(b: BoneId) -> int {
    match b {
        BoneId::Pelvis => 0,
        BoneId::Spine => 1,
        BoneId::Head => 2,
        BoneId::LeftUpperArm => 3,
        BoneId::LeftLowerArm => 4,
        BoneId::RightUpperArm => 5,
        BoneId::RightLowerArm => 6,
        BoneId::LeftUpperLeg => 7,
        BoneId::LeftLowerLeg => 8,
        BoneId::RightUpperLeg => 9,
        BoneId::RightLowerLeg => 10,
    }
}

/// The parent of every non-root bone; the pelvis maps to itself.
pub open spec fn parent_of(b: BoneId) -> BoneId {
    match b {
        BoneId::Pelvis => BoneId::Pelvis,
        BoneId::Spine => BoneId::Pelvis,
        BoneId::Head => BoneId::Spine,
        BoneId::LeftUpperArm => BoneId::Spine,
        BoneId::LeftLowerArm => BoneId::LeftUpperArm,
        BoneId::RightUpperArm => BoneId::Spine,
        BoneId::RightLowerArm => BoneId::RightUpperArm,
        BoneId::LeftUpperLeg => BoneId::Pelvis,
        BoneId::LeftLowerLeg => BoneId::LeftUpperLeg,
        BoneId::RightUpperLeg => BoneId::Pelvis,
        BoneId::RightLowerLeg => BoneId::RightUpperLeg,
    }
}

/// Number of steps from a bone up to the pelvis.
pub open spec fn bone_depth(b: BoneId) -> int {
    match b {
        BoneId::Pelvis => 0,
        BoneId::Spine => 1,
        BoneId::Head => 2,
        BoneId::LeftUpperArm => 2,
        BoneId::LeftLowerArm => 3,
        BoneId::RightUpperArm => 2,
        BoneId::RightLowerArm => 3,
        BoneId::LeftUpperLeg => 1,
        BoneId::LeftLowerLeg => 2,
        BoneId::RightUpperLeg => 1,
        BoneId::RightLowerLeg => 2,
    }
}

/// The bone parent graph is a tree rooted at the pelvis: every other bone
/// has a parent one level closer to the root, created strictly earlier,
/// and no bone is more than three steps away - so following parents can
/// never cycle.
pub proof fn lemma_bone_tree()
    ensures
        bone_depth(BoneId::Pelvis) == 0,
        forall|b: BoneId| 0 <= #[trigger] bone_depth(b) <= 3,
        forall|b: BoneId| b != BoneId::Pelvis ==> #[trigger] bone_depth(parent_of(b)) == bone_depth(
            b,
        ) - 1,
        forall|b: BoneId|
            b != BoneId::Pelvis ==> #[trigger] bone_index_spec(parent_of(b)) < bone_index_spec(b),
        forall|b: BoneId| #[trigger] bone_order(bone_index_spec(b)) == b,
{
}

impl BoneId {
    /// Position of the bone in the creation order.
    pub fn index(self) -> (r: usize)
        ensures
            r as int == bone_index_spec(self),
            r < 11,
    {
        match self {
            BoneId::Pelvis => 0,
            BoneId::Spine => 1,
            BoneId::Head => 2,
            BoneId::LeftUpperArm => 3,
            BoneId::LeftLowerArm => 4,
            BoneId::RightUpperArm => 5,
            BoneId::RightLowerArm => 6,
            BoneId::LeftUpperLeg => 7,
            BoneId::LeftLowerLeg => 8,
            BoneId::RightUpperLeg => 9,
            BoneId::RightLowerLeg => 10,
        }
    }

    /// The parent bone, absent only for the pelvis root.
    pub fn parent(self) -> (r: Option<BoneId>)
        ensures
            self == BoneId::Pelvis ==> r is None,
            self != BoneId::Pelvis ==> r == Some(parent_of(self)),
    {
        match self {
            BoneId::Pelvis => None,
            BoneId::Spine => Some(BoneId::Pelvis),
            BoneId::Head => Some(BoneId::Spine),
            BoneId::LeftUpperArm => Some(BoneId::Spine),
            BoneId::LeftLowerArm => Some(BoneId::LeftUpperArm),
            BoneId::RightUpperArm => Some(BoneId::Spine),
            BoneId::RightLowerArm => Some(BoneId::RightUpperArm),
            BoneId::LeftUpperLeg => Some(BoneId::Pelvis),
            BoneId::LeftLowerLeg => Some(BoneId::LeftUpperLeg),
            BoneId::RightUpperLeg => Some(BoneId::Pelvis),
            BoneId::RightLowerLeg => Some(BoneId::RightUpperLeg),
        }
    }

    /// All bones in creation order: parents strictly before children.
    pub fn all_bones() -> (r: Vec<BoneId>)
        ensures
            r@.len() == 11,
            forall|i: int| 0 <= i < 11 ==> #[trigger] r@[i] == bone_order(i),
    {
        let mut v: Vec<BoneId> = Vec::new();
        v.push(BoneId::Pelvis);
        v.push(BoneId::Spine);
        v.push(BoneId::Head);
        v.push(BoneId::LeftUpperArm);
        v.push(BoneId::LeftLowerArm);
        v.push(BoneId::RightUpperArm);
        v.push(BoneId::RightLowerArm);
        v.push(BoneId::LeftUpperLeg);
        v.push(BoneId::LeftLowerLeg);
        v.push(BoneId::RightUpperLeg);
        v.push(BoneId::RightLowerLeg);
        v
    }
}

/// Mesh-family classification of the bones: left and right limbs share a
/// shape.
#[derive(Clone, Copy, Debug, PartialEq, Eq, Structural)]
pub enum BoneType {
    Pelvis,
    Spine,
    Head,
    UpperArm,
    LowerArm,
    UpperLeg,
    LowerLeg,
}

/// The mesh family of each bone.
pub open spec fn bone_type_of(b: BoneId) -> BoneType {
    match b {
        BoneId::Pelvis => BoneType::Pelvis,
        BoneId::Spine => BoneType::Spine,
        BoneId::Head => BoneType::Head,
        BoneId::LeftUpperArm => BoneType::UpperArm,
        BoneId::RightUpperArm => BoneType::UpperArm,
        BoneId::LeftLowerArm => BoneType::LowerArm,
        BoneId::RightLowerArm => BoneType::LowerArm,
        BoneId::LeftUpperLeg => BoneType::UpperLeg,
        BoneId::RightUpperLeg => BoneType::UpperLeg,
        BoneId::LeftLowerLeg => BoneType::LowerLeg,
        BoneId::RightLowerLeg => BoneType::LowerLeg,
    }
}

impl BoneType {
    /// The mesh family a bone renders as.
    pub fn from_bone_id(bone_id: BoneId) -> (r: BoneType)
        ensures
            r == bone_type_of(bone_id),
    {
        match bone_id {
            BoneId::Pelvis => BoneType::Pelvis,
            BoneId::Spine => BoneType::Spine,
            BoneId::Head => BoneType::Head,
            BoneId::LeftUpperArm | BoneId::RightUpperArm => BoneType::UpperArm,
            BoneId::LeftLowerArm | BoneId::RightLowerArm => BoneType::LowerArm,
            BoneId::LeftUpperLeg | BoneId::RightUpperLeg => BoneType::UpperLeg,
            BoneId::LeftLowerLeg | BoneId::RightLowerLeg => BoneType::LowerLeg,
        }
    }

    /// Render dimensions of the family, in micro-metres:
    /// length, radius near the torso, radius away from it.
    pub fn dimensions(&self) -> (r: (i64, i64, i64))
        ensures
            r == match *self {
                BoneType::Pelvis => (150_000i64, 140_000i64, 140_000i64),
                BoneType::Spine => (460_000i64, 120_000i64, 160_000i64),
                BoneType::Head => (290_000i64, 90_000i64, 60_000i64),
                BoneType::UpperArm => (320_000i64, 55_000i64, 38_000i64),
                BoneType::LowerArm => (290_000i64, 42_000i64, 28_000i64),
                BoneType::UpperLeg => (450_000i64, 100_000i64, 65_000i64),
                BoneType::LowerLeg => (400_000i64, 58_000i64, 38_000i64),
            },
    {
        match self {
            BoneType::Pelvis => (150_000, 140_000, 140_000),
            BoneType::Spine => (460_000, 120_000, 160_000),
            BoneType::Head => (290_000, 90_000, 60_000),
            BoneType::UpperArm => (320_000, 55_000, 38_000),
            BoneType::LowerArm => (290_000, 42_000, 28_000),
            BoneType::UpperLeg => (450_000, 100_000, 65_000),
            BoneType::LowerLeg => (400_000, 58_000, 38_000),
        }
    }
}

/// Joint angle limits, in micro-radians, about the twist axis and the two
/// swing axes.
#[derive(Clone, Copy, Debug, PartialEq, Eq, Structural)]
pub struct AngleLimits {
    pub twist_min: i64,
    pub twist_max: i64,
    pub swing_x_min: i64,
    pub swing_x_max: i64,
    pub swing_z_min: i64,
    pub swing_z_max: i64,
}

impl AngleLimits {
    /// A full turn of freedom about every axis.
    pub fn free() -> (r: AngleLimits)
        ensures
            r == (AngleLimits {
                twist_min: ((-FX_PI) as i64),
                twist_max: FX_PI,
                swing_x_min: ((-FX_PI) as i64),
                swing_x_max: FX_PI,
                swing_z_min: ((-FX_PI) as i64),
                swing_z_max: FX_PI,
            }),
    {
        AngleLimits {
            twist_min: -FX_PI,
            twist_max: FX_PI,
            swing_x_min: -FX_PI,
            swing_x_max: FX_PI,
            swing_z_min: -FX_PI,
            swing_z_max: FX_PI,
        }
    }

    /// A knee: bends forward only, up to about 140 degrees.
    pub fn knee() -> (r: AngleLimits)
        ensures
            r == (AngleLimits {
                twist_min: -100_000i64,
                twist_max: 100_000i64,
                swing_x_min: 0i64,
                swing_x_max: 2_500_000i64,
                swing_z_min: -100_000i64,
                swing_z_max: 100_000i64,
            }),
    {
        AngleLimits {
            twist_min: -100_000,
            twist_max: 100_000,
            swing_x_min: 0,
            swing_x_max: 2_500_000,
            swing_z_min: -100_000,
            swing_z_max: 100_000,
        }
    }

    /// An elbow: bends one way, up to about 135 degrees.
    pub fn elbow() -> (r: AngleLimits)
        ensures
            r == (AngleLimits {
                twist_min: -200_000i64,
                twist_max: 200_000i64,
                swing_x_min: 0i64,
                swing_x_max: 2_400_000i64,
                swing_z_min: -100_000i64,
                swing_z_max: 100_000i64,
            }),
    {
        AngleLimits {
            twist_min: -200_000,
            twist_max: 200_000,
            swing_x_min: 0,
            swing_x_max: 2_400_000,
            swing_z_min: -100_000,
            swing_z_max: 100_000,
        }
    }

    /// A shoulder: wide freedom in every direction.
    pub fn shoulder() -> (r: AngleLimits)
        ensures
            r == (AngleLimits {
                twist_min: -1_500_000i64,
                twist_max: 1_500_000i64,
                swing_x_min: -2_000_000i64,
                swing_x_max: 1_000_000i64,
                swing_z_min: -500_000i64,
                swing_z_max: 2_500_000i64,
            }),
    {
        AngleLimits {
            twist_min: -1_500_000,
            twist_max: 1_500_000,
            swing_x_min: -2_000_000,
            swing_x_max: 1_000_000,
            swing_z_min: -500_000,
            swing_z_max: 2_500_000,
        }
    }

    /// A hip: forward swing wider than backward.
    pub fn hip() -> (r: AngleLimits)
        ensures
            r == (AngleLimits {
                twist_min: -800_000i64,
                twist_max: 800_000i64,
                swing_x_min: -1_500_000i64,
                swing_x_max: 2_000_000i64,
                swing_z_min: -800_000i64,
                swing_z_max: 1_200_000i64,
            }),
    {
        AngleLimits {
            twist_min: -800_000,
            twist_max: 800_000,
            swing_x_min: -1_500_000,
            swing_x_max: 2_000_000,
            swing_z_min: -800_000,
            swing_z_max: 1_200_000,
        }
    }

    /// A neck: modest freedom, more backward than forward.
    pub fn neck() -> (r: AngleLimits)
        ensures
            r == (AngleLimits {
                twist_min: -1_000_000i64,
                twist_max: 1_000_000i64,
                swing_x_min: -800_000i64,
                swing_x_max: 500_000i64,
                swing_z_min: -600_000i64,
                swing_z_max: 600_000i64,
            }),
    {
        AngleLimits {
            twist_min: -1_000_000,
            twist_max: 1_000_000,
            swing_x_min: -800_000,
            swing_x_max: 500_000,
            swing_z_min: -600_000,
            swing_z_max: 600_000,
        }
    }

    /// The spine: deliberately stiff.
    pub fn spine() -> (r: AngleLimits)
        ensures
            r == (AngleLimits {
                twist_min: -400_000i64,
                twist_max: 400_000i64,
                swing_x_min: -300_000i64,
                swing_x_max: 400_000i64,
                swing_z_min: -300_000i64,
                swing_z_max: 300_000i64,
            }),
    {
        AngleLimits {
            twist_min: -400_000,
            twist_max: 400_000,
            swing_x_min: -300_000,
            swing_x_max: 400_000,
            swing_z_min: -300_000,
            swing_z_max: 300_000,
        }
    }

    /// A wrist or ankle: middling freedom.
    pub fn wrist_ankle() -> (r: AngleLimits)
        ensures
            r == (AngleLimits {
                twist_min: -500_000i64,
                twist_max: 500_000i64,
                swing_x_min: -600_000i64,
                swing_x_max: 800_000i64,
                swing_z_min: -400_000i64,
                swing_z_max: 400_000i64,
            }),
    {
        AngleLimits {
            twist_min: -500_000,
            twist_max: 500_000,
            swing_x_min: -600_000,
            swing_x_max: 800_000,
            swing_z_min: -400_000,
            swing_z_max: 400_000,
        }
    }
}

impl Default for AngleLimits {
    /// Middling freedom about every axis: half a radian of twist and
    /// four fifths of a radian of swing.
    fn default() -> (r: AngleLimits)
        ensures
            r == (AngleLimits {
                twist_min: -500_000i64,
                twist_max: 500_000i64,
                swing_x_min: -800_000i64,
                swing_x_max: 800_000i64,
                swing_z_min: -800_000i64,
                swing_z_max: 800_000i64,
            }),
    {
        AngleLimits {
            twist_min: -500_000,
            twist_max: 500_000,
            swing_x_min: -800_000,
            swing_x_max: 800_000,
            swing_z_min: -800_000,
            swing_z_max: 800_000,
        }
    }
}

/// Static geometry of one bone: capsule length and radius, mass, the
/// attach-point offset from the parent's centre, and the joint's angle
/// limits. Lengths are micro-metres, masses micro-kilograms.
#[derive(Clone, Copy, Debug, PartialEq, Eq, Structural)]
pub struct Bone {
    pub id: BoneId,
    pub length: i64,
    pub radius: i64,
    pub mass: i64,
    pub local_offset: Vec3,
    pub angle_limits: AngleLimits,
}

/// Half the shoulder width, less the chest radius, plus a small margin:
/// how far the shoulder joint sits out from the spine centre line.
pub const SHOULDER_OFFSET: i64 = 290_000;

/// Half the hip width: how far each hip joint sits out from the pelvis
/// centre line.
pub const HIP_HALF_WIDTH: i64 = 140_000;

/// The geometry table, at a total reference height of 1.8 metres.
pub open spec fn bone_def(b: BoneId) -> Bone {
    match b {
        BoneId::Pelvis => Bone {
            id: b,
            length: 150_000i64,
            radius: 140_000i64,
            mass: 12_000_000i64,
            local_offset: Vec3 { x: 0i64, y: 0i64, z: 0i64 },
            angle_limits: AngleLimits {
                twist_min: ((-FX_PI) as i64),
                twist_max: FX_PI,
                swing_x_min: ((-FX_PI) as i64),
                swing_x_max: FX_PI,
                swing_z_min: ((-FX_PI) as i64),
                swing_z_max: FX_PI,
            },
        },
        BoneId::Spine => Bone {
            id: b,
            length: 460_000i64,
            radius: 160_000i64,
            mass: 10_000_000i64,
            local_offset: Vec3 { x: 0i64, y: 75_000i64, z: 0i64 },
            angle_limits: AngleLimits {
                twist_min: -400_000i64,
                twist_max: 400_000i64,
                swing_x_min: -300_000i64,
                swing_x_max: 400_000i64,
                swing_z_min: -300_000i64,
                swing_z_max: 300_000i64,
            },
        },
        BoneId::Head => Bone {
            id: b,
            length: 290_000i64,
            radius: 90_000i64,
            mass: 5_000_000i64,
            local_offset: Vec3 { x: 0i64, y: 230_000i64, z: 0i64 },
            angle_limits: AngleLimits {
                twist_min: -1_000_000i64,
                twist_max: 1_000_000i64,
                swing_x_min: -800_000i64,
                swing_x_max: 500_000i64,
                swing_z_min: -600_000i64,
                swing_z_max: 600_000i64,
            },
        },
        BoneId::LeftUpperArm => Bone {
            id: b,
            length: 320_000i64,
            radius: 50_000i64,
            mass: 2_500_000i64,
            local_offset: Vec3 { x: ((-SHOULDER_OFFSET) as i64), y: 150_000i64, z: 0i64 },
            angle_limits: AngleLimits {
                twist_min: -1_500_000i64,
                twist_max: 1_500_000i64,
                swing_x_min: -2_000_000i64,
                swing_x_max: 1_000_000i64,
                swing_z_min: -500_000i64,
                swing_z_max: 2_500_000i64,
            },
        },
        BoneId::RightUpperArm => Bone {
            id: b,
            length: 320_000i64,
            radius: 50_000i64,
            mass: 2_500_000i64,
            local_offset: Vec3 { x: SHOULDER_OFFSET, y: 150_000i64, z: 0i64 },
            angle_limits: AngleLimits {
                twist_min: -1_500_000i64,
                twist_max: 1_500_000i64,
                swing_x_min: -2_000_000i64,
                swing_x_max: 1_000_000i64,
                swing_z_min: -500_000i64,
                swing_z_max: 2_500_000i64,
            },
        },
        BoneId::LeftLowerArm => Bone {
            id: b,
            length: 290_000i64,
            radius: 36_000i64,
            mass: 1_500_000i64,
            local_offset: Vec3 { x: 0i64, y: -320_000i64, z: 0i64 },
            angle_limits: AngleLimits {
                twist_min: -200_000i64,
                twist_max: 200_000i64,
                swing_x_min: 0i64,
                swing_x_max: 2_400_000i64,
                swing_z_min: -100_000i64,
                swing_z_max: 100_000i64,
            },
        },
        BoneId::RightLowerArm => Bone {
            id: b,
            length: 290_000i64,
            radius: 36_000i64,
            mass: 1_500_000i64,
            local_offset: Vec3 { x: 0i64, y: -320_000i64, z: 0i64 },
            angle_limits: AngleLimits {
                twist_min: -200_000i64,
                twist_max: 200_000i64,
                swing_x_min: 0i64,
                swing_x_max: 2_400_000i64,
                swing_z_min: -100_000i64,
                swing_z_max: 100_000i64,
            },
        },
        BoneId::LeftUpperLeg => Bone {
            id: b,
            length: 450_000i64,
            radius: 80_000i64,
            mass: 8_000_000i64,
            local_offset: Vec3 { x: ((-HIP_HALF_WIDTH) as i64), y: -75_000i64, z: 0i64 },
            angle_limits: AngleLimits {
                twist_min: -800_000i64,
                twist_max: 800_000i64,
                swing_x_min: -1_500_000i64,
                swing_x_max: 2_000_000i64,
                swing_z_min: -800_000i64,
                swing_z_max: 1_200_000i64,
            },
        },
        BoneId::RightUpperLeg => Bone {
            id: b,
            length: 450_000i64,
            radius: 80_000i64,
            mass: 8_000_000i64,
            local_offset: Vec3 { x: HIP_HALF_WIDTH, y: -75_000i64, z: 0i64 },
            angle_limits: AngleLimits {
                twist_min: -800_000i64,
                twist_max: 800_000i64,
                swing_x_min: -1_500_000i64,
                swing_x_max: 2_000_000i64,
                swing_z_min: -800_000i64,
                swing_z_max: 1_200_000i64,
            },
        },
        BoneId::LeftLowerLeg => Bone {
            id: b,
            length: 400_000i64,
            radius: 45_000i64,
            mass: 4_000_000i64,
            local_offset: Vec3 { x: 0i64, y: -450_000i64, z: 0i64 },
            angle_limits: AngleLimits {
                twist_min: -100_000i64,
                twist_max: 100_000i64,
                swing_x_min: 0i64,
                swing_x_max: 2_500_000i64,
                swing_z_min: -100_000i64,
                swing_z_max: 100_000i64,
            },
        },
        BoneId::RightLowerLeg => Bone {
            id: b,
            length: 400_000i64,
            radius: 45_000i64,
            mass: 4_000_000i64,
            local_offset: Vec3 { x: 0i64, y: -450_000i64, z: 0i64 },
            angle_limits: AngleLimits {
                twist_min: -100_000i64,
                twist_max: 100_000i64,
                swing_x_min: 0i64,
                swing_x_max: 2_500_000i64,
                swing_z_min: -100_000i64,
                swing_z_max: 100_000i64,
            },
        },
    }
}

/// The A-pose: arms rest about 25 degrees out from vertical.
pub const ARM_ANGLE: i64 = 440_000;

/// Sine of `ARM_ANGLE`, precomputed in micro-units.
pub const ARM_SIN: i64 = 425_939;

/// Cosine of `ARM_ANGLE`, precomputed in micro-units.
pub const ARM_COS: i64 = 904_752;

/// Collision membership of every skeleton capsule: one private group.
pub const SKELETON_COLLISION_MEMBERSHIP: u32 = 1;

/// Collision filter of every skeleton capsule: everything except the
/// skeleton's own group, so the body never collides with itself.
pub const SKELETON_COLLISION_FILTER: u32 = 0xFFFF_FFFE;

/// Collision membership of the ground plane.
pub const GROUND_COLLISION_MEMBERSHIP: u32 = 2;

/// Collision filter of the ground plane: everything.
pub const GROUND_COLLISION_FILTER: u32 = 0xFFFF_FFFF;

/// Offset from a bone's attach point on its parent to the bone's own
/// centre: limbs hang below the attach point, spine and head stand above
/// it, and arms lean outward by the A-pose angle.
pub open spec fn center_correction(b: BoneId) -> (int, int, int) {
    let half = bone_def(b).length as int / 2;
    match b {
        BoneId::Pelvis => (0, 0, 0),
        BoneId::Spine => (0, half, 0),
        BoneId::Head => (0, half, 0),
        BoneId::LeftUpperArm => (
            -fx_mul_spec(half, ARM_SIN as int),
            -fx_mul_spec(half, ARM_COS as int),
            0,
        ),
        BoneId::LeftLowerArm => (
            -fx_mul_spec(half, ARM_SIN as int),
            -fx_mul_spec(half, ARM_COS as int),
            0,
        ),
        BoneId::RightUpperArm => (
            fx_mul_spec(half, ARM_SIN as int),
            -fx_mul_spec(half, ARM_COS as int),
            0,
        ),
        BoneId::RightLowerArm => (
            fx_mul_spec(half, ARM_SIN as int),
            -fx_mul_spec(half, ARM_COS as int),
            0,
        ),
        BoneId::LeftUpperLeg => (0, -half, 0),
        BoneId::LeftLowerLeg => (0, -half, 0),
        BoneId::RightUpperLeg => (0, -half, 0),
        BoneId::RightLowerLeg => (0, -half, 0),
    }
}

/// Step from the parent's centre to this bone's centre: attach offset
/// plus centre correction.
pub open spec fn attach_delta(b: BoneId) -> (int, int, int) {
    let off = bone_def(b).local_offset;
    let corr = center_correction(b);
    (off.x as int + corr.0, off.y as int + corr.1, off.z as int + corr.2)
}

/// World-space centre of each bone, walking the tree down from the
/// pelvis at `root`.
pub open spec fn world_center(b: BoneId, root: Vec3) -> (int, int, int)
    decreases bone_depth(b),
{
    match b {
        BoneId::Pelvis => (root.x as int, root.y as int, root.z as int),
        BoneId::Spine => step_center(world_center(BoneId::Pelvis, root), attach_delta(b)),
        BoneId::Head => step_center(world_center(BoneId::Spine, root), attach_delta(b)),
        BoneId::LeftUpperArm => step_center(world_center(BoneId::Spine, root), attach_delta(b)),
        BoneId::LeftLowerArm => step_center(
            world_center(BoneId::LeftUpperArm, root),
            attach_delta(b),
        ),
        BoneId::RightUpperArm => step_center(world_center(BoneId::Spine, root), attach_delta(b)),
        BoneId::RightLowerArm => step_center(
            world_center(BoneId::RightUpperArm, root),
            attach_delta(b),
        ),
        BoneId::LeftUpperLeg => step_center(world_center(BoneId::Pelvis, root), attach_delta(b)),
        BoneId::LeftLowerLeg => step_center(
            world_center(BoneId::LeftUpperLeg, root),
            attach_delta(b),
        ),
        BoneId::RightUpperLeg => step_center(world_center(BoneId::Pelvis, root), attach_delta(b)),
        BoneId::RightLowerLeg => step_center(
            world_center(BoneId::RightUpperLeg, root),
            attach_delta(b),
        ),
    }
}

/// Adds an attach step to a parent centre.
pub open spec fn step_center(p: (int, int, int), d: (int, int, int)) -> (int, int, int) {
    (p.0 + d.0, p.1 + d.1, p.2 + d.2)
}

/// Damping per bone, micro-units: the root and spine are heavily damped
/// for stability, ground-contacting lower legs moderately, the other
/// extremities lightly. Returns (angular, linear).
pub open spec fn damping_of(b: BoneId) -> (int, int) {
    match b {
        BoneId::Pelvis => (20_000_000, 10_000_000),
        BoneId::Spine => (15_000_000, 5_000_000),
        BoneId::LeftLowerLeg => (8_000_000, 3_000_000),
        BoneId::RightLowerLeg => (8_000_000, 3_000_000),
        _ => (5_000_000, 1_000_000),
    }
}

/// The spawn orientation of each bone: arms lean out by the A-pose
/// angle about the z axis, everything else spawns unrotated.
pub open spec fn initial_rotation_spec(b: BoneId) -> Quat {
    match b {
        BoneId::LeftUpperArm | BoneId::LeftLowerArm => Quat {
            x: 0i64,
            y: 0i64,
            z: crate::fx::sin_spec(fx_half(-ARM_ANGLE as int)) as i64,
            w: crate::fx::cos_spec(fx_half(-ARM_ANGLE as int)) as i64,
        },
        BoneId::RightUpperArm | BoneId::RightLowerArm => Quat {
            x: 0i64,
            y: 0i64,
            z: crate::fx::sin_spec(fx_half(ARM_ANGLE as int)) as i64,
            w: crate::fx::cos_spec(fx_half(ARM_ANGLE as int)) as i64,
        },
        _ => quat_identity_spec(),
    }
}

/// Everything the engine needs to create one bone's dynamic body and
/// capsule collider.
#[derive(Clone, Copy, Debug, PartialEq, Eq, Structural)]
pub struct BodyPlan {
    pub bone: BoneId,
    pub center: Vec3,
    pub rotation: Quat,
    pub angular_damping: i64,
    pub linear_damping: i64,
    pub half_length: i64,
    pub radius: i64,
    pub mass: i64,
}

/// The body plan of one bone.
pub open spec fn body_plan_spec(b: BoneId, root: Vec3) -> BodyPlan {
    let c = world_center(b, root);
    let d = damping_of(b);
    BodyPlan {
        bone: b,
        center: Vec3 { x: c.0 as i64, y: c.1 as i64, z: c.2 as i64 },
        rotation: initial_rotation_spec(b),
        angular_damping: d.0 as i64,
        linear_damping: d.1 as i64,
        half_length: (bone_def(b).length as int / 2) as i64,
        radius: bone_def(b).radius,
        mass: bone_def(b).mass,
    }
}

/// Motorized joint topology: a single-axis hinge about the x axis for
/// knees and elbows, or a three-axis ball-and-socket with per-axis
/// position motors. Limits are micro-radians, stiffness, damping and
/// force caps micro-units.
#[derive(Clone, Copy, Debug, PartialEq, Eq, Structural)]
pub enum JointKind {
    Hinge { limit_min: i64, limit_max: i64, stiffness: i64, damping: i64, max_force: i64 },
    Spherical { stiffness: i64, damping: i64, max_force: i64 },
}

/// Everything the engine needs to connect one bone to its parent:
/// anatomical local anchors on each body and the joint topology.
#[derive(Clone, Copy, Debug, PartialEq, Eq, Structural)]
pub struct JointPlan {
    pub child: BoneId,
    pub parent: BoneId,
    pub anchor1: Vec3,
    pub anchor2: Vec3,
    pub kind: JointKind,
}

/// The joint plan of one non-root bone.
pub open spec fn joint_plan_spec(b: BoneId) -> JointPlan {
    let parent_half = bone_def(parent_of(b)).length as int / 2;
    let child_half = bone_def(b).length as int / 2;
    match b {
        BoneId::Spine => JointPlan {
            child: b,
            parent: BoneId::Pelvis,
            anchor1: Vec3 { x: 0i64, y: parent_half as i64, z: 0i64 },
            anchor2: Vec3 { x: 0i64, y: (-child_half) as i64, z: 0i64 },
            kind: JointKind::Spherical {
                stiffness: 300_000_000i64,
                damping: 60_000_000i64,
                max_force: 3_000_000_000i64,
            },
        },
        BoneId::Head => JointPlan {
            child: b,
            parent: BoneId::Spine,
            anchor1: Vec3 { x: 0i64, y: parent_half as i64, z: 0i64 },
            anchor2: Vec3 { x: 0i64, y: (-child_half) as i64, z: 0i64 },
            kind: JointKind::Spherical {
                stiffness: 80_000_000i64,
                damping: 15_000_000i64,
                max_force: 800_000_000i64,
            },
        },
        BoneId::LeftUpperArm => JointPlan {
            child: b,
            parent: BoneId::Spine,
            anchor1: Vec3 { x: ((-SHOULDER_OFFSET) as i64), y: 150_000i64, z: 0i64 },
            anchor2: Vec3 { x: 0i64, y: child_half as i64, z: 0i64 },
            kind: JointKind::Spherical {
                stiffness: 100_000_000i64,
                damping: 20_000_000i64,
                max_force: 1_000_000_000i64,
            },
        },
        BoneId::RightUpperArm => JointPlan {
            child: b,
            parent: BoneId::Spine,
            anchor1: Vec3 { x: SHOULDER_OFFSET, y: 150_000i64, z: 0i64 },
            anchor2: Vec3 { x: 0i64, y: child_half as i64, z: 0i64 },
            kind: JointKind::Spherical {
                stiffness: 100_000_000i64,
                damping: 20_000_000i64,
                max_force: 1_000_000_000i64,
            },
        },
        BoneId::LeftLowerArm => JointPlan {
            child: b,
            parent: BoneId::LeftUpperArm,
            anchor1: Vec3 { x: 0i64, y: (-parent_half) as i64, z: 0i64 },
            anchor2: Vec3 { x: 0i64, y: child_half as i64, z: 0i64 },
            kind: JointKind::Hinge {
                limit_min: 0i64,
                limit_max: 2_400_000i64,
                stiffness: 120_000_000i64,
                damping: 25_000_000i64,
                max_force: 1_200_000_000i64,
            },
        },
        BoneId::RightLowerArm => JointPlan {
            child: b,
            parent: BoneId::RightUpperArm,
            anchor1: Vec3 { x: 0i64, y: (-parent_half) as i64, z: 0i64 },
            anchor2: Vec3 { x: 0i64, y: child_half as i64, z: 0i64 },
            kind: JointKind::Hinge {
                limit_min: 0i64,
                limit_max: 2_400_000i64,
                stiffness: 120_000_000i64,
                damping: 25_000_000i64,
                max_force: 1_200_000_000i64,
            },
        },
        BoneId::LeftUpperLeg => JointPlan {
            child: b,
            parent: BoneId::Pelvis,
            anchor1: Vec3 { x: ((-HIP_HALF_WIDTH) as i64), y: (-parent_half) as i64, z: 0i64 },
            anchor2: Vec3 { x: 0i64, y: child_half as i64, z: 0i64 },
            kind: JointKind::Spherical {
                stiffness: 200_000_000i64,
                damping: 40_000_000i64,
                max_force: 2_000_000_000i64,
            },
        },
        BoneId::RightUpperLeg => JointPlan {
            child: b,
            parent: BoneId::Pelvis,
            anchor1: Vec3 { x: HIP_HALF_WIDTH, y: (-parent_half) as i64, z: 0i64 },
            anchor2: Vec3 { x: 0i64, y: child_half as i64, z: 0i64 },
            kind: JointKind::Spherical {
                stiffness: 200_000_000i64,
                damping: 40_000_000i64,
                max_force: 2_000_000_000i64,
            },
        },
        BoneId::LeftLowerLeg => JointPlan {
            child: b,
            parent: BoneId::LeftUpperLeg,
            anchor1: Vec3 { x: 0i64, y: (-parent_half) as i64, z: 0i64 },
            anchor2: Vec3 { x: 0i64, y: child_half as i64, z: 0i64 },
            kind: JointKind::Hinge {
                limit_min: 0i64,
                limit_max: 2_500_000i64,
                stiffness: 150_000_000i64,
                damping: 30_000_000i64,
                max_force: 1_500_000_000i64,
            },
        },
        BoneId::RightLowerLeg => JointPlan {
            child: b,
            parent: BoneId::RightUpperLeg,
            anchor1: Vec3 { x: 0i64, y: (-parent_half) as i64, z: 0i64 },
            anchor2: Vec3 { x: 0i64, y: child_half as i64, z: 0i64 },
            kind: JointKind::Hinge {
                limit_min: 0i64,
                limit_max: 2_500_000i64,
                stiffness: 150_000_000i64,
                damping: 30_000_000i64,
                max_force: 1_500_000_000i64,
            },
        },
        BoneId::Pelvis => JointPlan {
            child: b,
            parent: BoneId::Pelvis,
            anchor1: Vec3 { x: 0i64, y: 0i64, z: 0i64 },
            anchor2: Vec3 { x: 0i64, y: 0i64, z: 0i64 },
            kind: JointKind::Spherical { stiffness: 0i64, damping: 0i64, max_force: 0i64 },
        },
    }
}

/// A live joint-motor retune: new per-axis target angles with a shared
/// stiffness and damping.
#[derive(Clone, Copy, Debug, PartialEq, Eq, Structural)]
pub struct JointMotorCommand {
    pub bone: BoneId,
    pub target: Vec3,
    pub stiffness: i64,
    pub damping: i64,
}

/// The articulated skeleton: its bone table and the spawn position of
/// the pelvis. The engine bodies and joints are created from the plans
/// this type produces, in the order it produces them.
pub struct Skeleton {
    pub bones: Vec<Bone>,
    pub root_position: Vec3,
}

impl Skeleton {
    /// The bone table is complete and pinned to the geometry table, and
    /// the spawn position is within the world the fixed-point range
    /// covers.
    pub open spec fn wf(&self) -> bool {
        &&& self.bones@.len() == 11
        &&& forall|i: int| 0 <= i < 11 ==> #[trigger] self.bones@[i] == bone_def(bone_order(i))
        &&& vec_in(self.root_position, 1_000_000_000_000)
    }

    /// Builds the humanoid skeleton table for a character spawned with
    /// its pelvis at `position`.
    pub fn create_humanoid(position: Vec3) -> (r: Skeleton)
        requires
            vec_in(position, 1_000_000_000_000),
        ensures
            r.wf(),
            r.root_position == position,
    {
        let mut bones: Vec<Bone> = Vec::new();
        let order = BoneId::all_bones();
        for i in 0..11
            invariant
                order@.len() == 11,
                forall|j: int| 0 <= j < 11 ==> #[trigger] order@[j] == bone_order(j),
                bones@.len() == i,
                forall|j: int| 0 <= j < i ==> #[trigger] bones@[j] == bone_def(bone_order(j)),
        {
            bones.push(bone_of(order[i]));
        }
        Skeleton { bones, root_position: position }
    }

    /// The geometry of one bone.
    pub fn bone(&self, id: BoneId) -> (r: Bone)
        requires
            self.wf(),
        ensures
            r == bone_def(id),
    {
        proof {
            lemma_bone_tree();
        }
        self.bones[id.index()]
    }

    /// One body plan per bone, in creation order: every plan's bone
    /// appears after its parent's, so no body is wired before its parent
    /// exists.
    pub fn body_plans(&self) -> (r: Vec<BodyPlan>)
        requires
            self.wf(),
        ensures
            r@.len() == 11,
            forall|i: int|
                0 <= i < 11 ==> #[trigger] r@[i] == body_plan_spec(
                    bone_order(i),
                    self.root_position,
                ),
    {
        proof {
            reveal_with_fuel(world_center, 5);
        }
        let root = self.root_position;
        let rot_left = Quat::from_rotation_z(-ARM_ANGLE);
        let rot_right = Quat::from_rotation_z(ARM_ANGLE);
        let rot_none = Quat::identity();
        proof {
            // name the magnitudes of the A-pose constants so the products
            // below reduce to numerals
            assert(fx_abs(160_000int) == 160_000 && fx_abs(145_000int) == 145_000 && fx_abs(
                ARM_SIN as int,
            ) == 425_939 && fx_abs(ARM_COS as int) == 904_752);
            assert(fx_abs(160_000int) * fx_abs(ARM_SIN as int) <= (FX_ONE as int) * (
            i64::MAX as int));
            assert(fx_abs(160_000int) * fx_abs(ARM_COS as int) <= (FX_ONE as int) * (
            i64::MAX as int));
            assert(fx_abs(145_000int) * fx_abs(ARM_SIN as int) <= (FX_ONE as int) * (
            i64::MAX as int));
            assert(fx_abs(145_000int) * fx_abs(ARM_COS as int) <= (FX_ONE as int) * (
            i64::MAX as int));
            crate::fx::lemma_mul_abs_le(160_000int, ARM_SIN as int, 160_000, 425_939);
            crate::fx::lemma_mul_abs_le(160_000int, ARM_COS as int, 160_000, 904_752);
            crate::fx::lemma_mul_abs_le(145_000int, ARM_SIN as int, 145_000, 425_939);
            crate::fx::lemma_mul_abs_le(145_000int, ARM_COS as int, 145_000, 904_752);
        }
        let ua_sin = fx_mul(160_000, ARM_SIN);
        let ua_cos = fx_mul(160_000, ARM_COS);
        let la_sin = fx_mul(145_000, ARM_SIN);
        let la_cos = fx_mul(145_000, ARM_COS);
        let c_pelvis = root;
        let c_spine = Vec3 { x: c_pelvis.x, y: c_pelvis.y + 75_000 + 230_000, z: c_pelvis.z };
        let c_head = Vec3 { x: c_spine.x, y: c_spine.y + 230_000 + 145_000, z: c_spine.z };
        let c_lua = Vec3 {
            x: c_spine.x - SHOULDER_OFFSET - ua_sin,
            y: c_spine.y + 150_000 - ua_cos,
            z: c_spine.z,
        };
        let c_rua = Vec3 {
            x: c_spine.x + SHOULDER_OFFSET + ua_sin,
            y: c_spine.y + 150_000 - ua_cos,
            z: c_spine.z,
        };
        let c_lla = Vec3 { x: c_lua.x - la_sin, y: c_lua.y - 320_000 - la_cos, z: c_lua.z };
        let c_rla = Vec3 { x: c_rua.x + la_sin, y: c_rua.y - 320_000 - la_cos, z: c_rua.z };
        let c_lul = Vec3 {
            x: c_pelvis.x - HIP_HALF_WIDTH,
            y: c_pelvis.y - 75_000 - 225_000,
            z: c_pelvis.z,
        };
        let c_rul = Vec3 {
            x: c_pelvis.x + HIP_HALF_WIDTH,
            y: c_pelvis.y - 75_000 - 225_000,
            z: c_pelvis.z,
        };
        let c_lll = Vec3 { x: c_lul.x, y: c_lul.y - 450_000 - 200_000, z: c_lul.z };
        let c_rll = Vec3 { x: c_rul.x, y: c_rul.y - 450_000 - 200_000, z: c_rul.z };
        let mut r: Vec<BodyPlan> = Vec::new();
        r.push(BodyPlan {
            bone: BoneId::Pelvis,
            center: c_pelvis,
            rotation: rot_none,
            angular_damping: 20_000_000,
            linear_damping: 10_000_000,
            half_length: 75_000,
            radius: 140_000,
            mass: 12_000_000,
        });
        r.push(BodyPlan {
            bone: BoneId::Spine,
            center: c_spine,
            rotation: rot_none,
            angular_damping: 15_000_000,
            linear_damping: 5_000_000,
            half_length: 230_000,
            radius: 160_000,
            mass: 10_000_000,
        });
        r.push(BodyPlan {
            bone: BoneId::Head,
            center: c_head,
            rotation: rot_none,
            angular_damping: 5_000_000,
            linear_damping: 1_000_000,
            half_length: 145_000,
            radius: 90_000,
            mass: 5_000_000,
        });
        r.push(BodyPlan {
            bone: BoneId::LeftUpperArm,
            center: c_lua,
            rotation: rot_left,
            angular_damping: 5_000_000,
            linear_damping: 1_000_000,
            half_length: 160_000,
            radius: 50_000,
            mass: 2_500_000,
        });
        r.push(BodyPlan {
            bone: BoneId::LeftLowerArm,
            center: c_lla,
            rotation: rot_left,
            angular_damping: 5_000_000,
            linear_damping: 1_000_000,
            half_length: 145_000,
            radius: 36_000,
            mass: 1_500_000,
        });
        r.push(BodyPlan {
            bone: BoneId::RightUpperArm,
            center: c_rua,
            rotation: rot_right,
            angular_damping: 5_000_000,
            linear_damping: 1_000_000,
            half_length: 160_000,
            radius: 50_000,
            mass: 2_500_000,
        });
        r.push(BodyPlan {
            bone: BoneId::RightLowerArm,
            center: c_rla,
            rotation: rot_right,
            angular_damping: 5_000_000,
            linear_damping: 1_000_000,
            half_length: 145_000,
            radius: 36_000,
            mass: 1_500_000,
        });
        r.push(BodyPlan {
            bone: BoneId::LeftUpperLeg,
            center: c_lul,
            rotation: rot_none,
            angular_damping: 5_000_000,
            linear_damping: 1_000_000,
            half_length: 225_000,
            radius: 80_000,
            mass: 8_000_000,
        });
        r.push(BodyPlan {
            bone: BoneId::LeftLowerLeg,
            center: c_lll,
            rotation: rot_none,
            angular_damping: 8_000_000,
            linear_damping: 3_000_000,
            half_length: 200_000,
            radius: 45_000,
            mass: 4_000_000,
        });
        r.push(BodyPlan {
            bone: BoneId::RightUpperLeg,
            center: c_rul,
            rotation: rot_none,
            angular_damping: 5_000_000,
            linear_damping: 1_000_000,
            half_length: 225_000,
            radius: 80_000,
            mass: 8_000_000,
        });
        r.push(BodyPlan {
            bone: BoneId::RightLowerLeg,
            center: c_rll,
            rotation: rot_none,
            angular_damping: 8_000_000,
            linear_damping: 3_000_000,
            half_length: 200_000,
            radius: 45_000,
            mass: 4_000_000,
        });
        r
    }

    /// One joint plan per non-root bone, in creation order: each child
    /// is wired strictly after its parent's body plan.
    pub fn joint_plans(&self) -> (r: Vec<JointPlan>)
        requires
            self.wf(),
        ensures
            r@.len() == 10,
            forall|i: int| 0 <= i < 10 ==> #[trigger] r@[i] == joint_plan_spec(bone_order(i + 1)),
    {
        let mut r: Vec<JointPlan> = Vec::new();
        r.push(JointPlan {
            child: BoneId::Spine,
            parent: BoneId::Pelvis,
            anchor1: Vec3 { x: 0, y: 75_000, z: 0 },
            anchor2: Vec3 { x: 0, y: -230_000, z: 0 },
            kind: JointKind::Spherical {
                stiffness: 300_000_000,
                damping: 60_000_000,
                max_force: 3_000_000_000,
            },
        });
        r.push(JointPlan {
            child: BoneId::Head,
            parent: BoneId::Spine,
            anchor1: Vec3 { x: 0, y: 230_000, z: 0 },
            anchor2: Vec3 { x: 0, y: -145_000, z: 0 },
            kind: JointKind::Spherical {
                stiffness: 80_000_000,
                damping: 15_000_000,
                max_force: 800_000_000,
            },
        });
        r.push(JointPlan {
            child: BoneId::LeftUpperArm,
            parent: BoneId::Spine,
            anchor1: Vec3 { x: -SHOULDER_OFFSET, y: 150_000, z: 0 },
            anchor2: Vec3 { x: 0, y: 160_000, z: 0 },
            kind: JointKind::Spherical {
                stiffness: 100_000_000,
                damping: 20_000_000,
                max_force: 1_000_000_000,
            },
        });
        r.push(JointPlan {
            child: BoneId::LeftLowerArm,
            parent: BoneId::LeftUpperArm,
            anchor1: Vec3 { x: 0, y: -160_000, z: 0 },
            anchor2: Vec3 { x: 0, y: 145_000, z: 0 },
            kind: JointKind::Hinge {
                limit_min: 0,
                limit_max: 2_400_000,
                stiffness: 120_000_000,
                damping: 25_000_000,
                max_force: 1_200_000_000,
            },
        });
        r.push(JointPlan {
            child: BoneId::RightUpperArm,
            parent: BoneId::Spine,
            anchor1: Vec3 { x: SHOULDER_OFFSET, y: 150_000, z: 0 },
            anchor2: Vec3 { x: 0, y: 160_000, z: 0 },
            kind: JointKind::Spherical {
                stiffness: 100_000_000,
                damping: 20_000_000,
                max_force: 1_000_000_000,
            },
        });
        r.push(JointPlan {
            child: BoneId::RightLowerArm,
            parent: BoneId::RightUpperArm,
            anchor1: Vec3 { x: 0, y: -160_000, z: 0 },
            anchor2: Vec3 { x: 0, y: 145_000, z: 0 },
            kind: JointKind::Hinge {
                limit_min: 0,
                limit_max: 2_400_000,
                stiffness: 120_000_000,
                damping: 25_000_000,
                max_force: 1_200_000_000,
            },
        });
        r.push(JointPlan {
            child: BoneId::LeftUpperLeg,
            parent: BoneId::Pelvis,
            anchor1: Vec3 { x: -HIP_HALF_WIDTH, y: -75_000, z: 0 },
            anchor2: Vec3 { x: 0, y: 225_000, z: 0 },
            kind: JointKind::Spherical {
                stiffness: 200_000_000,
                damping: 40_000_000,
                max_force: 2_000_000_000,
            },
        });
        r.push(JointPlan {
            child: BoneId::LeftLowerLeg,
            parent: BoneId::LeftUpperLeg,
            anchor1: Vec3 { x: 0, y: -225_000, z: 0 },
            anchor2: Vec3 { x: 0, y: 200_000, z: 0 },
            kind: JointKind::Hinge {
                limit_min: 0,
                limit_max: 2_500_000,
                stiffness: 150_000_000,
                damping: 30_000_000,
                max_force: 1_500_000_000,
            },
        });
        r.push(JointPlan {
            child: BoneId::RightUpperLeg,
            parent: BoneId::Pelvis,
            anchor1: Vec3 { x: HIP_HALF_WIDTH, y: -75_000, z: 0 },
            anchor2: Vec3 { x: 0, y: 225_000, z: 0 },
            kind: JointKind::Spherical {
                stiffness: 200_000_000,
                damping: 40_000_000,
                max_force: 2_000_000_000,
            },
        });
        r.push(JointPlan {
            child: BoneId::RightLowerLeg,
            parent: BoneId::RightUpperLeg,
            anchor1: Vec3 { x: 0, y: -225_000, z: 0 },
            anchor2: Vec3 { x: 0, y: 200_000, z: 0 },
            kind: JointKind::Hinge {
                limit_min: 0,
                limit_max: 2_500_000,
                stiffness: 150_000_000,
                damping: 30_000_000,
                max_force: 1_500_000_000,
            },
        });
        r
    }

    /// World position of one bone's body in a snapshot; absent exactly
    /// when the body is.
    pub fn get_bone_position(
        &self,
        frame: &Vec<Option<crate::muscle::BodyState>>,
        bone_id: BoneId,
    ) -> (r: Option<Vec3>)
        requires
            crate::muscle::states_wf(frame@),
        ensures
            r == match frame@[bone_index_spec(bone_id)] {
                Some(s) => Some(s.position),
                None => None::<Vec3>,
            },
    {
        match &frame[bone_id.index()] {
            Some(s) => Some(s.position),
            None => None,
        }
    }

    /// World rotation of one bone's body in a snapshot; absent exactly
    /// when the body is.
    pub fn get_bone_rotation(
        &self,
        frame: &Vec<Option<crate::muscle::BodyState>>,
        bone_id: BoneId,
    ) -> (r: Option<Quat>)
        requires
            crate::muscle::states_wf(frame@),
        ensures
            r == match frame@[bone_index_spec(bone_id)] {
                Some(s) => Some(s.rotation),
                None => None::<Quat>,
            },
    {
        match &frame[bone_id.index()] {
            Some(s) => Some(s.rotation),
            None => None,
        }
    }

    /// Angular velocity of one bone's body in a snapshot; absent exactly
    /// when the body is.
    pub fn get_bone_angular_velocity(
        &self,
        frame: &Vec<Option<crate::muscle::BodyState>>,
        bone_id: BoneId,
    ) -> (r: Option<Vec3>)
        requires
            crate::muscle::states_wf(frame@),
        ensures
            r == match frame@[bone_index_spec(bone_id)] {
                Some(s) => Some(s.angular_velocity),
                None => None::<Vec3>,
            },
    {
        match &frame[bone_id.index()] {
            Some(s) => Some(s.angular_velocity),
            None => None,
        }
    }

    /// A live joint-motor retune for one bone: new target angles with a
    /// shared stiffness and damping. The root pelvis has no joint, so a
    /// retune aimed at it is absent and the caller skips it.
    pub fn set_joint_target(
        &self,
        bone_id: BoneId,
        target_angles: Vec3,
        stiffness: i64,
        damping: i64,
    ) -> (r: Option<JointMotorCommand>)
        ensures
            bone_id == BoneId::Pelvis ==> r is None,
            bone_id != BoneId::Pelvis ==> r == Some(
                JointMotorCommand { bone: bone_id, target: target_angles, stiffness, damping },
            ),
    {
        match bone_id {
            BoneId::Pelvis => None,
            _ => Some(JointMotorCommand { bone: bone_id, target: target_angles, stiffness, damping }),
        }
    }
}

/// The geometry of one bone, as executable data.
fn bone_of(b: BoneId) -> (r: Bone)
    ensures
        r == bone_def(b),
{
    match b {
        BoneId::Pelvis => Bone {
            id: b,
            length: 150_000,
            radius: 140_000,
            mass: 12_000_000,
            local_offset: Vec3 { x: 0, y: 0, z: 0 },
            angle_limits: AngleLimits::free(),
        },
        BoneId::Spine => Bone {
            id: b,
            length: 460_000,
            radius: 160_000,
            mass: 10_000_000,
            local_offset: Vec3 { x: 0, y: 75_000, z: 0 },
            angle_limits: AngleLimits::spine(),
        },
        BoneId::Head => Bone {
            id: b,
            length: 290_000,
            radius: 90_000,
            mass: 5_000_000,
            local_offset: Vec3 { x: 0, y: 230_000, z: 0 },
            angle_limits: AngleLimits::neck(),
        },
        BoneId::LeftUpperArm => Bone {
            id: b,
            length: 320_000,
            radius: 50_000,
            mass: 2_500_000,
            local_offset: Vec3 { x: -SHOULDER_OFFSET, y: 150_000, z: 0 },
            angle_limits: AngleLimits::shoulder(),
        },
        BoneId::RightUpperArm => Bone {
            id: b,
            length: 320_000,
            radius: 50_000,
            mass: 2_500_000,
            local_offset: Vec3 { x: SHOULDER_OFFSET, y: 150_000, z: 0 },
            angle_limits: AngleLimits::shoulder(),
        },
        BoneId::LeftLowerArm => Bone {
            id: b,
            length: 290_000,
            radius: 36_000,
            mass: 1_500_000,
            local_offset: Vec3 { x: 0, y: -320_000, z: 0 },
            angle_limits: AngleLimits::elbow(),
        },
        BoneId::RightLowerArm => Bone {
            id: b,
            length: 290_000,
            radius: 36_000,
            mass: 1_500_000,
            local_offset: Vec3 { x: 0, y: -320_000, z: 0 },
            angle_limits: AngleLimits::elbow(),
        },
        BoneId::LeftUpperLeg => Bone {
            id: b,
            length: 450_000,
            radius: 80_000,
            mass: 8_000_000,
            local_offset: Vec3 { x: -HIP_HALF_WIDTH, y: -75_000, z: 0 },
            angle_limits: AngleLimits::hip(),
        },
        BoneId::RightUpperLeg => Bone {
            id: b,
            length: 450_000,
            radius: 80_000,
            mass: 8_000_000,
            local_offset: Vec3 { x: HIP_HALF_WIDTH, y: -75_000, z: 0 },
            angle_limits: AngleLimits::hip(),
        },
        BoneId::LeftLowerLeg => Bone {
            id: b,
            length: 400_000,
            radius: 45_000,
            mass: 4_000_000,
            local_offset: Vec3 { x: 0, y: -450_000, z: 0 },
            angle_limits: AngleLimits::knee(),
        },
        BoneId::RightLowerLeg => Bone {
            id: b,
            length: 400_000,
            radius: 45_000,
            mass: 4_000_000,
            local_offset: Vec3 { x: 0, y: -450_000, z: 0 },
            angle_limits: AngleLimits::knee(),
        },
    }
}

} // verus!
