//! The character-rig pose plumbing and the bag widget's layout.

use econsim::anim::{
    Bone, QuadrupedMediumSkeleton, RunAnimation, TheropodAttr, TheropodSkeleton, Vec3Fx,
};
use econsim::hud::{slot_cell, slot_margins, Event, Ids, State};
use econsim::quadruped::{Body, BodyType, QuadrupedMediumBody, SkeletonAttr, Species};

fn identity_bone() -> Bone {
    Bone {
        position: Vec3Fx { x: 0, y: 0, z: 0 },
        rotation_z: 0,
        scale: Vec3Fx { x: 1_000_000, y: 1_000_000, z: 1_000_000 },
    }
}

fn identity_theropod() -> TheropodSkeleton {
    TheropodSkeleton {
        head: identity_bone(),
        jaw: identity_bone(),
        neck: identity_bone(),
        chest_front: identity_bone(),
        chest_back: identity_bone(),
        tail_front: identity_bone(),
        tail_back: identity_bone(),
        hand_l: identity_bone(),
        hand_r: identity_bone(),
        leg_l: identity_bone(),
        leg_r: identity_bone(),
        foot_l: identity_bone(),
        foot_r: identity_bone(),
    }
}

#[test]
fn quadruped_rig_starts_at_identity() {
    let s = QuadrupedMediumSkeleton::new();
    assert_eq!(s.head_upper, identity_bone());
    assert_eq!(s.foot_br, identity_bone());
    assert_eq!(s.bone_count(), 15);
}

#[test]
fn run_pose_places_bones_from_attributes() {
    let mut attr = TheropodAttr {
        head: (500_000, 1_000_000),
        jaw: (2_500_000, -2_000_000),
        neck: (0, 0),
        chest_front: (1_000_000, 14_000_000),
        chest_back: (-1_000_000, 500_000),
        tail_front: (-3_000_000, 0),
        tail_back: (-6_000_000, -500_000),
        hand_l: (1_500_000, -1_000_000),
        hand_r: (1_500_000, -1_000_000),
        leg_l: (2_000_000, -3_000_000),
        leg_r: (2_000_000, -3_000_000),
        foot_l: (2_500_000, -5_000_000),
        foot_r: (2_500_000, -5_000_000),
    };
    attr.head = (500_000, 1_000_000);
    let mut skeleton = identity_theropod();
    skeleton.hand_r.scale = Vec3Fx { x: 7, y: 8, z: 9 };
    let next = RunAnimation::update_skeleton(&skeleton, &attr);
    assert_eq!(next.head.position, Vec3Fx { x: 0, y: 500_000, z: 1_000_000 });
    assert_eq!(next.head.rotation_z, 0);
    // Limb bones reuse their first attribute for both horizontal axes.
    assert_eq!(
        next.hand_l.position,
        Vec3Fx { x: 1_500_000, y: 1_500_000, z: -1_000_000 }
    );
    // The right hand's scale is carried over from the input skeleton.
    assert_eq!(next.hand_r.scale, Vec3Fx { x: 7, y: 8, z: 9 });
    assert_eq!(next.hand_l.scale, Vec3Fx { x: 1_000_000, y: 1_000_000, z: 1_000_000 });
}

#[test]
fn quadruped_attributes_follow_the_species_table() {
    let lion = QuadrupedMediumBody { species: Species::Lion, body_type: BodyType::Male };
    let a = SkeletonAttr::from_body(&lion);
    assert_eq!(a.head_upper, (2_500_000, 2_000_000));
    assert_eq!(a.jaw, (3_500_000, -4_500_000));
    assert_eq!(a.scaler, 1_300_000);
    assert_eq!(a.dampen, 800_000);
    let mouflon = QuadrupedMediumBody { species: Species::Mouflon, body_type: BodyType::Female };
    let b = SkeletonAttr::from_body(&mouflon);
    assert_eq!(b.tempo, 850_000);
    assert_eq!(b.feet_b, (-1_000_000, 0, -2_500_000));
    assert!(SkeletonAttr::try_from_body(&Body::QuadrupedMedium(lion)).is_ok());
    assert!(SkeletonAttr::try_from_body(&Body::Other).is_err());
    let d = SkeletonAttr::default();
    assert_eq!(d.scaler, 0);
    assert_eq!(d.head_upper, (0, 0));
}

#[test]
fn bag_state_counts_its_slots() {
    let state = State {
        ids: Ids {
            bag_close: 1,
            bag_contents: 2,
            inv_alignment: 3,
            inv_grid_1: 4,
            inv_grid_2: 5,
            inv_scrollbar: 6,
            inv_slot_0: 7,
            map_title: 8,
            inv_slot: vec![10, 11, 12],
            item1: 9,
        },
    };
    assert_eq!(state.slot_count(), 3);
    assert!(matches!(Event::Close, Event::Close));
}

#[test]
fn inventory_slots_fill_a_five_wide_grid() {
    assert_eq!(slot_cell(0), (0, 0));
    assert_eq!(slot_cell(4), (4, 0));
    assert_eq!(slot_cell(5), (0, 1));
    assert_eq!(slot_cell(12), (2, 2));
    assert_eq!(slot_margins(0), (4, 4));
    assert_eq!(slot_margins(7), (4 + 44 * 2, 4 + 44));
}
