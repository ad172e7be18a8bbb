//! The bone hierarchy, geometry table, and construction plans.

use active_ragdoll::linalg::Quat;
use active_ragdoll::muscle::BodyState;
use active_ragdoll::linalg::Vec3;
use active_ragdoll::skeleton::AngleLimits;
use active_ragdoll::skeleton::BoneId;
use active_ragdoll::skeleton::BoneType;
use active_ragdoll::skeleton::JointKind;
use active_ragdoll::skeleton::Skeleton;

#[test]
fn parent_graph_is_a_tree_rooted_at_the_pelvis() {
    assert!(BoneId::Pelvis.parent().is_none());
    for bone in BoneId::all_bones() {
        if bone != BoneId::Pelvis {
            // every chain reaches the pelvis in at most three steps
            let mut cur = bone;
            let mut steps = 0;
            while let Some(p) = cur.parent() {
                cur = p;
                steps += 1;
                assert!(steps <= 3, "{bone:?} is deeper than 3");
            }
            assert_eq!(cur, BoneId::Pelvis);
        }
    }
}

#[test]
fn creation_order_puts_parents_first() {
    let order = BoneId::all_bones();
    assert_eq!(order.len(), 11);
    for bone in order {
        if let Some(p) = bone.parent() {
            assert!(p.index() < bone.index(), "{bone:?} created before {p:?}");
        }
    }
}

#[test]
fn bone_table_matches_the_reference_proportions() {
    let sk = Skeleton::create_humanoid(Vec3::new(0, 2_000_000, 0));
    let spine = sk.bone(BoneId::Spine);
    assert_eq!(spine.length, 460_000);
    assert_eq!(spine.radius, 160_000);
    assert_eq!(spine.mass, 10_000_000);
    assert_eq!(spine.local_offset, Vec3::new(0, 75_000, 0));
    assert_eq!(spine.angle_limits, AngleLimits::spine());
    let lua = sk.bone(BoneId::LeftUpperArm);
    assert_eq!(lua.length, 320_000);
    assert_eq!(lua.local_offset, Vec3::new(-290_000, 150_000, 0));
    assert_eq!(lua.angle_limits, AngleLimits::shoulder());
    let lll = sk.bone(BoneId::LeftLowerLeg);
    assert_eq!(lll.length, 400_000);
    assert_eq!(lll.local_offset, Vec3::new(0, -450_000, 0));
    assert_eq!(lll.angle_limits, AngleLimits::knee());
}

#[test]
fn body_plans_place_centres_down_the_tree() {
    let root = Vec3::new(0, 2_000_000, 0);
    let sk = Skeleton::create_humanoid(root);
    let plans = sk.body_plans();
    assert_eq!(plans.len(), 11);
    // pelvis sits at the root; torso stacks above it; legs hang below
    assert_eq!(plans[0].bone, BoneId::Pelvis);
    assert_eq!(plans[0].center, root);
    assert_eq!(plans[1].bone, BoneId::Spine);
    assert_eq!(plans[1].center, Vec3::new(0, 2_305_000, 0));
    assert_eq!(plans[2].bone, BoneId::Head);
    assert_eq!(plans[2].center, Vec3::new(0, 2_680_000, 0));
    assert_eq!(plans[3].bone, BoneId::LeftUpperArm);
    assert_eq!(plans[3].center, Vec3::new(-358_150, 2_310_240, 0));
    assert_eq!(plans[4].bone, BoneId::LeftLowerArm);
    assert_eq!(plans[4].center, Vec3::new(-419_911, 1_859_051, 0));
    assert_eq!(plans[7].bone, BoneId::LeftUpperLeg);
    assert_eq!(plans[7].center, Vec3::new(-140_000, 1_700_000, 0));
    assert_eq!(plans[8].bone, BoneId::LeftLowerLeg);
    assert_eq!(plans[8].center, Vec3::new(-140_000, 1_050_000, 0));
    // the right side mirrors the left in x
    assert_eq!(plans[5].center, Vec3::new(358_150, 2_310_240, 0));
    assert_eq!(plans[9].center, Vec3::new(140_000, 1_700_000, 0));
    // the root and spine are damped hardest, extremities lightest
    assert_eq!(plans[0].angular_damping, 20_000_000);
    assert_eq!(plans[0].linear_damping, 10_000_000);
    assert_eq!(plans[1].angular_damping, 15_000_000);
    assert_eq!(plans[8].angular_damping, 8_000_000);
    assert_eq!(plans[3].angular_damping, 5_000_000);
    // only the arms spawn rotated (the A-pose)
    assert_eq!(plans[0].rotation, Quat::identity());
    assert_eq!(plans[3].rotation, Quat::from_rotation_z(-440_000));
    assert_eq!(plans[5].rotation, Quat::from_rotation_z(440_000));
}

#[test]
fn joint_plans_wire_each_child_to_its_parent_anatomically() {
    let sk = Skeleton::create_humanoid(Vec3::new(0, 2_000_000, 0));
    let joints = sk.joint_plans();
    assert_eq!(joints.len(), 10);
    for jp in joints.iter() {
        assert_eq!(jp.child.parent(), Some(jp.parent));
    }
    // the spine hangs from the top of the pelvis by its bottom end
    assert_eq!(joints[0].child, BoneId::Spine);
    assert_eq!(joints[0].anchor1, Vec3::new(0, 75_000, 0));
    assert_eq!(joints[0].anchor2, Vec3::new(0, -230_000, 0));
    match joints[0].kind {
        JointKind::Spherical { stiffness, damping, max_force } => {
            assert_eq!(stiffness, 300_000_000);
            assert_eq!(damping, 60_000_000);
            assert_eq!(max_force, 3_000_000_000);
        }
        _ => panic!("spine joint must be spherical"),
    }
    // knees are hinges limited to forward flexion of about 140 degrees
    let knee = joints.iter().find(|j| j.child == BoneId::LeftLowerLeg).unwrap();
    match knee.kind {
        JointKind::Hinge { limit_min, limit_max, stiffness, damping, max_force } => {
            assert_eq!(limit_min, 0);
            assert_eq!(limit_max, 2_500_000);
            assert_eq!(stiffness, 150_000_000);
            assert_eq!(damping, 30_000_000);
            assert_eq!(max_force, 1_500_000_000);
        }
        _ => panic!("knee must be a hinge"),
    }
    assert_eq!(knee.anchor1, Vec3::new(0, -225_000, 0));
    assert_eq!(knee.anchor2, Vec3::new(0, 200_000, 0));
    // elbows are slightly looser hinges
    let elbow = joints.iter().find(|j| j.child == BoneId::RightLowerArm).unwrap();
    match elbow.kind {
        JointKind::Hinge { limit_max, .. } => assert_eq!(limit_max, 2_400_000),
        _ => panic!("elbow must be a hinge"),
    }
}

#[test]
fn joint_retunes_skip_the_root() {
    let sk = Skeleton::create_humanoid(Vec3::new(0, 0, 0));
    assert!(sk.set_joint_target(BoneId::Pelvis, Vec3::zero(), 1, 2).is_none());
    let cmd = sk.set_joint_target(BoneId::Head, Vec3::new(1, 2, 3), 100, 10).unwrap();
    assert_eq!(cmd.bone, BoneId::Head);
    assert_eq!(cmd.target, Vec3::new(1, 2, 3));
    assert_eq!(cmd.stiffness, 100);
    assert_eq!(cmd.damping, 10);
}

#[test]
fn bone_lookups_are_absent_exactly_when_the_body_is() {
    let sk = Skeleton::create_humanoid(Vec3::zero());
    let mut frame: Vec<Option<BodyState>> = vec![None; 11];
    frame[BoneId::Head.index()] = Some(BodyState {
        position: Vec3::new(7, 8, 9),
        rotation: Quat::from_rotation_y(250_000),
        angular_velocity: Vec3::new(-1, -2, -3),
    });
    assert_eq!(sk.get_bone_position(&frame, BoneId::Head), Some(Vec3::new(7, 8, 9)));
    assert_eq!(sk.get_bone_rotation(&frame, BoneId::Head), Some(Quat::from_rotation_y(250_000)));
    assert_eq!(
        sk.get_bone_angular_velocity(&frame, BoneId::Head),
        Some(Vec3::new(-1, -2, -3))
    );
    assert!(sk.get_bone_position(&frame, BoneId::Pelvis).is_none());
    assert!(sk.get_bone_rotation(&frame, BoneId::Spine).is_none());
    assert!(sk.get_bone_angular_velocity(&frame, BoneId::LeftLowerLeg).is_none());
}

#[test]
fn bone_types_group_mirrored_limbs() {
    assert_eq!(BoneType::from_bone_id(BoneId::Pelvis), BoneType::Pelvis);
    assert_eq!(
        BoneType::from_bone_id(BoneId::LeftUpperArm),
        BoneType::from_bone_id(BoneId::RightUpperArm)
    );
    assert_eq!(
        BoneType::from_bone_id(BoneId::LeftLowerLeg),
        BoneType::from_bone_id(BoneId::RightLowerLeg)
    );
    assert_eq!(BoneType::from_bone_id(BoneId::Head), BoneType::Head);
    assert_eq!(BoneType::UpperLeg.dimensions(), (450_000, 100_000, 65_000));
    assert_eq!(BoneType::Head.dimensions(), (290_000, 90_000, 60_000));
}

#[test]
fn angle_limit_presets() {
    let knee = AngleLimits::knee();
    assert_eq!(knee.swing_x_min, 0);
    assert_eq!(knee.swing_x_max, 2_500_000);
    let hip = AngleLimits::hip();
    assert_eq!(hip.swing_x_min, -1_500_000);
    assert_eq!(hip.swing_x_max, 2_000_000);
    let free = AngleLimits::free();
    assert_eq!(free.twist_max, active_ragdoll::FX_PI);
}
