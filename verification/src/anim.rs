//! Deterministic pose data for the character rigs.
//!
//! Only the discrete pose plumbing lives here: bones carry fixed-point
//! coordinates, and the run pose writes each bone from the rig's static
//! attributes. The floating-point matrix composition that renders a
//! skeleton belongs to the renderer, outside this crate.

use vstd::prelude::*;

verus! {

/// A fixed-point 3-vector.
#[derive(Clone, Copy, Debug, PartialEq, Eq, Structural)]
pub struct Vec3Fx {
    pub x: i64,
    pub y: i64,
    pub z: i64,
}

impl Vec3Fx {
    /// The zero vector.
    pub fn zero() -> (r: Vec3Fx)
        ensures
            r == (Vec3Fx { x: 0, y: 0, z: 0 }),
    {
        Vec3Fx { x: 0, y: 0, z: 0 }
    }

    /// The all-ones vector, in micro-units.
    pub fn one() -> (r: Vec3Fx)
        ensures
            r == (Vec3Fx { x: 1_000_000, y: 1_000_000, z: 1_000_000 }),
    {
        Vec3Fx { x: 1_000_000, y: 1_000_000, z: 1_000_000 }
    }
}

/// One bone of a rig: offset, rotation about the vertical axis, scale.
#[derive(Clone, Copy, Debug, PartialEq, Eq, Structural)]
pub struct Bone {
    pub position: Vec3Fx,
    pub rotation_z: i64,
    pub scale: Vec3Fx,
}

/// The identity bone: no offset, no rotation, unit scale.
pub open spec fn bone_identity() -> Bone {
    Bone {
        position: Vec3Fx { x: 0, y: 0, z: 0 },
        rotation_z: 0,
        scale: Vec3Fx { x: 1_000_000, y: 1_000_000, z: 1_000_000 },
    }
}

impl Bone {
    /// The identity bone, exact per `bone_identity`.
    pub fn identity() -> (r: Bone)
        ensures
            r == bone_identity(),
    {
        Bone { position: Vec3Fx::zero(), rotation_z: 0, scale: Vec3Fx::one() }
    }
}

/// The quadruped rig: fifteen named bones.
#[derive(Clone, Copy, Debug, PartialEq, Eq, Structural)]
pub struct QuadrupedMediumSkeleton {
    pub head_upper: Bone,
    pub head_lower: Bone,
    pub jaw: Bone,
    pub tail: Bone,
    pub torso_front: Bone,
    pub torso_back: Bone,
    pub ears: Bone,
    pub leg_fl: Bone,
    pub leg_fr: Bone,
    pub leg_bl: Bone,
    pub leg_br: Bone,
    pub foot_fl: Bone,
    pub foot_fr: Bone,
    pub foot_bl: Bone,
    pub foot_br: Bone,
}

impl QuadrupedMediumSkeleton {
    /// A fresh rig with every bone at the identity pose.
    pub fn new() -> (r: Self)
        ensures
            r.head_upper == bone_identity(),
            r.head_lower == bone_identity(),
            r.jaw == bone_identity(),
            r.tail == bone_identity(),
            r.torso_front == bone_identity(),
            r.torso_back == bone_identity(),
            r.ears == bone_identity(),
            r.leg_fl == bone_identity(),
            r.leg_fr == bone_identity(),
            r.leg_bl == bone_identity(),
            r.leg_br == bone_identity(),
            r.foot_fl == bone_identity(),
            r.foot_fr == bone_identity(),
            r.foot_bl == bone_identity(),
            r.foot_br == bone_identity(),
    {
        let b = Bone::identity();
        QuadrupedMediumSkeleton {
            head_upper: b,
            head_lower: b,
            jaw: b,
            tail: b,
            torso_front: b,
            torso_back: b,
            ears: b,
            leg_fl: b,
            leg_fr: b,
            leg_bl: b,
            leg_br: b,
            foot_fl: b,
            foot_fr: b,
            foot_bl: b,
            foot_br: b,
        }
    }

    /// This rig always has fifteen bones.
    pub fn bone_count(&self) -> (r: usize)
        ensures
            r == 15,
    {
        15
    }
}

/// The theropod rig: thirteen named bones.
#[derive(Clone, Copy, Debug, PartialEq, Eq, Structural)]
pub struct TheropodSkeleton {
    pub head: Bone,
    pub jaw: Bone,
    pub neck: Bone,
    pub chest_front: Bone,
    pub chest_back: Bone,
    pub tail_front: Bone,
    pub tail_back: Bone,
    pub hand_l: Bone,
    pub hand_r: Bone,
    pub leg_l: Bone,
    pub leg_r: Bone,
    pub foot_l: Bone,
    pub foot_r: Bone,
}

/// Static per-species placement of the theropod bones: `(y, z)` offsets,
/// and `(xy, z)` for the mirrored limbs.
#[derive(Clone, Copy, Debug)]
pub struct TheropodAttr {
    pub head: (i64, i64),
    pub jaw: (i64, i64),
    pub neck: (i64, i64),
    pub chest_front: (i64, i64),
    pub chest_back: (i64, i64),
    pub tail_front: (i64, i64),
    pub tail_back: (i64, i64),
    pub hand_l: (i64, i64),
    pub hand_r: (i64, i64),
    pub leg_l: (i64, i64),
    pub leg_r: (i64, i64),
    pub foot_l: (i64, i64),
    pub foot_r: (i64, i64),
}

/// One bone of the run pose: straight placement from the attributes,
/// with no rotation and unit scale.
pub open spec fn posed(x: int, y: int, z: int) -> Bone {
    Bone {
        position: Vec3Fx { x: x as i64, y: y as i64, z: z as i64 },
        rotation_z: 0,
        scale: Vec3Fx { x: 1_000_000, y: 1_000_000, z: 1_000_000 },
    }
}

/// The whole run pose as a function of the rig attributes. Axial bones
/// sit on the spine plane; limb bones reuse their first attribute for
/// both horizontal axes. The right hand's scale is the one field the
/// pose leaves untouched from the previous skeleton.
pub open spec fn run_pose_spec(skeleton: TheropodSkeleton, attr: TheropodAttr)
    -> TheropodSkeleton {
    TheropodSkeleton {
        head: posed(0, attr.head.0 as int, attr.head.1 as int),
        jaw: posed(0, attr.jaw.0 as int, attr.jaw.1 as int),
        neck: posed(0, attr.neck.0 as int, attr.neck.1 as int),
        chest_front: posed(0, attr.chest_front.0 as int, attr.chest_front.1 as int),
        chest_back: posed(0, attr.chest_back.0 as int, attr.chest_back.1 as int),
        tail_front: posed(0, attr.tail_front.0 as int, attr.tail_front.1 as int),
        tail_back: posed(0, attr.tail_back.0 as int, attr.tail_back.1 as int),
        hand_l: posed(attr.hand_l.0 as int, attr.hand_l.0 as int, attr.hand_l.1 as int),
        hand_r: Bone {
            position: Vec3Fx {
                x: attr.hand_r.0,
                y: attr.hand_r.0,
                z: attr.hand_r.1,
            },
            rotation_z: 0,
            scale: skeleton.hand_r.scale,
        },
        leg_l: posed(attr.leg_l.0 as int, attr.leg_l.0 as int, attr.leg_l.1 as int),
        leg_r: posed(attr.leg_r.0 as int, attr.leg_r.0 as int, attr.leg_r.1 as int),
        foot_l: posed(attr.foot_l.0 as int, attr.foot_l.0 as int, attr.foot_l.1 as int),
        foot_r: posed(attr.foot_r.0 as int, attr.foot_r.0 as int, attr.foot_r.1 as int),
    }
}

/// The theropod run animation.
#[derive(Clone, Copy, Debug, PartialEq, Eq, Structural)]
pub struct RunAnimation;

impl RunAnimation {
    /// Compute the run pose, exact per `run_pose_spec`.
    pub fn update_skeleton(skeleton: &TheropodSkeleton, attr: &TheropodAttr) -> (next:
        TheropodSkeleton)
        ensures
            next == run_pose_spec(*skeleton, *attr),
    {
        let mut next = *skeleton;
        next.head = Bone {
            position: Vec3Fx { x: 0, y: attr.head.0, z: attr.head.1 },
            rotation_z: 0,
            scale: Vec3Fx::one(),
        };
        next.jaw = Bone {
            position: Vec3Fx { x: 0, y: attr.jaw.0, z: attr.jaw.1 },
            rotation_z: 0,
            scale: Vec3Fx::one(),
        };
        next.neck = Bone {
            position: Vec3Fx { x: 0, y: attr.neck.0, z: attr.neck.1 },
            rotation_z: 0,
            scale: Vec3Fx::one(),
        };
        next.chest_front = Bone {
            position: Vec3Fx { x: 0, y: attr.chest_front.0, z: attr.chest_front.1 },
            rotation_z: 0,
            scale: Vec3Fx::one(),
        };
        next.chest_back = Bone {
            position: Vec3Fx { x: 0, y: attr.chest_back.0, z: attr.chest_back.1 },
            rotation_z: 0,
            scale: Vec3Fx::one(),
        };
        next.tail_front = Bone {
            position: Vec3Fx { x: 0, y: attr.tail_front.0, z: attr.tail_front.1 },
            rotation_z: 0,
            scale: Vec3Fx::one(),
        };
        next.tail_back = Bone {
            position: Vec3Fx { x: 0, y: attr.tail_back.0, z: attr.tail_back.1 },
            rotation_z: 0,
            scale: Vec3Fx::one(),
        };
        next.hand_l = Bone {
            position: Vec3Fx { x: attr.hand_l.0, y: attr.hand_l.0, z: attr.hand_l.1 },
            rotation_z: 0,
            scale: Vec3Fx::one(),
        };
        next.hand_r = Bone {
            position: Vec3Fx { x: attr.hand_r.0, y: attr.hand_r.0, z: attr.hand_r.1 },
            rotation_z: 0,
            scale: next.hand_r.scale,
        };
        next.leg_l = Bone {
            position: Vec3Fx { x: attr.leg_l.0, y: attr.leg_l.0, z: attr.leg_l.1 },
            rotation_z: 0,
            scale: Vec3Fx::one(),
        };
        next.leg_r = Bone {
            position: Vec3Fx { x: attr.leg_r.0, y: attr.leg_r.0, z: attr.leg_r.1 },
            rotation_z: 0,
            scale: Vec3Fx::one(),
        };
        next.foot_l = Bone {
            position: Vec3Fx { x: attr.foot_l.0, y: attr.foot_l.0, z: attr.foot_l.1 },
            rotation_z: 0,
            scale: Vec3Fx::one(),
        };
        next.foot_r = Bone {
            position: Vec3Fx { x: attr.foot_r.0, y: attr.foot_r.0, z: attr.foot_r.1 },
            rotation_z: 0,
            scale: Vec3Fx::one(),
        };
        next
    }
}

} // verus!
