//! Static rig attributes of the quadruped bodies.
//!
//! One row of placement constants per species, in fixed-point
//! micro-units, looked up when a body's skeleton is built. The values
//! are pose data, not arithmetic: every row is pinned exactly by a
//! per-field spec table.

use vstd::prelude::*;

verus! {

/// The quadruped species with a rig of their own.
#[derive(Clone, Copy, Debug, PartialEq, Eq, Structural)]
pub enum Species {
    Grolgar,
    Saber,
    Tuskram,
    Lion,
    Tarasque,
    Tiger,
    Wolf,
    Frostfang,
    Mouflon,
}

/// The body type of a quadruped; the attribute tables do not
/// distinguish it, but a body carries it.
#[derive(Clone, Copy, Debug, PartialEq, Eq, Structural)]
pub enum BodyType {
    Male,
    Female,
}

/// One quadruped body.
#[derive(Clone, Copy, Debug, PartialEq, Eq, Structural)]
pub struct QuadrupedMediumBody {
    pub species: Species,
    pub body_type: BodyType,
}

/// Any body a skeleton may be asked for; only quadrupeds carry these
/// attributes.
#[derive(Clone, Copy, Debug, PartialEq, Eq, Structural)]
pub enum Body {
    QuadrupedMedium(QuadrupedMediumBody),
    Other,
}

/// Static placement of the quadruped rig's bones, and its gait shape:
/// `(y, z)` offsets for axial bones, `(x, y, z)` for legs and feet, and
/// the scalar gait parameters.
#[derive(Clone, Copy, Debug)]
pub struct SkeletonAttr {
    pub head_upper: (i64, i64),
    pub head_lower: (i64, i64),
    pub jaw: (i64, i64),
    pub tail: (i64, i64),
    pub torso_front: (i64, i64),
    pub torso_back: (i64, i64),
    pub ears: (i64, i64),
    pub leg_f: (i64, i64, i64),
    pub leg_b: (i64, i64, i64),
    pub feet_f: (i64, i64, i64),
    pub feet_b: (i64, i64, i64),
    pub scaler: i64,
    pub dampen: i64,
    pub maximize: i64,
    pub tempo: i64,
}

/// The `head_upper` attribute per species.
pub open spec fn head_upper_spec(s: Species) -> (i64, i64) {
    match s {
        Species::Grolgar => (0i64, -1000000i64),
        Species::Saber => (0i64, -3000000i64),
        Species::Tuskram => (0i64, 1000000i64),
        Species::Lion => (2500000i64, 2000000i64),
        Species::Tarasque => (-4000000i64, 3500000i64),
        Species::Tiger => (2000000i64, 1000000i64),
        Species::Wolf => (-500000i64, 3000000i64),
        Species::Frostfang => (1000000i64, -2000000i64),
        Species::Mouflon => (-2500000i64, 6000000i64),
    }
}

/// The `head_lower` attribute per species.
pub open spec fn head_lower_spec(s: Species) -> (i64, i64) {
    match s {
        Species::Grolgar => (1000000i64, -1000000i64),
        Species::Saber => (1000000i64, 0i64),
        Species::Tuskram => (1000000i64, 1000000i64),
        Species::Lion => (500000i64, 1000000i64),
        Species::Tarasque => (500000i64, -4000000i64),
        Species::Tiger => (0i64, 0i64),
        Species::Wolf => (-4500000i64, 2000000i64),
        Species::Frostfang => (2000000i64, 1500000i64),
        Species::Mouflon => (-1000000i64, 500000i64),
    }
}

/// The `jaw` attribute per species.
pub open spec fn jaw_spec(s: Species) -> (i64, i64) {
    match s {
        Species::Grolgar => (7000000i64, 1500000i64),
        Species::Saber => (2500000i64, -2000000i64),
        Species::Tuskram => (5500000i64, -4000000i64),
        Species::Lion => (3500000i64, -4500000i64),
        Species::Tarasque => (9000000i64, -10000000i64),
        Species::Tiger => (3500000i64, -4000000i64),
        Species::Wolf => (5000000i64, -3000000i64),
        Species::Frostfang => (4000000i64, -3000000i64),
        Species::Mouflon => (10500000i64, -4000000i64),
    }
}

/// The `tail` attribute per species.
pub open spec fn tail_spec(s: Species) -> (i64, i64) {
    match s {
        Species::Grolgar => (-11500000i64, -500000i64),
        Species::Saber => (-11000000i64, 1000000i64),
        Species::Tuskram => (-9000000i64, 2000000i64),
        Species::Lion => (-11000000i64, 1000000i64),
        Species::Tarasque => (-11000000i64, 0i64),
        Species::Tiger => (-13500000i64, -7000000i64),
        Species::Wolf => (-11000000i64, 0i64),
        Species::Frostfang => (-7000000i64, -3500000i64),
        Species::Mouflon => (-10500000i64, 3000000i64),
    }
}

/// The `torso_front` attribute per species.
pub open spec fn torso_front_spec(s: Species) -> (i64, i64) {
    match s {
        Species::Grolgar => (10000000i64, 13000000i64),
        Species::Saber => (14000000i64, 14000000i64),
        Species::Tuskram => (10000000i64, 14500000i64),
        Species::Lion => (10000000i64, 14000000i64),
        Species::Tarasque => (11500000i64, 18500000i64),
        Species::Tiger => (10000000i64, 14000000i64),
        Species::Wolf => (12000000i64, 13000000i64),
        Species::Frostfang => (9000000i64, 11500000i64),
        Species::Mouflon => (11000000i64, 13500000i64),
    }
}

/// The `torso_back` attribute per species.
pub open spec fn torso_back_spec(s: Species) -> (i64, i64) {
    match s {
        Species::Grolgar => (-10000000i64, 1500000i64),
        Species::Saber => (-13500000i64, 0i64),
        Species::Tuskram => (-12500000i64, -2000000i64),
        Species::Lion => (-12000000i64, -500000i64),
        Species::Tarasque => (-14000000i64, -1000000i64),
        Species::Tiger => (-13000000i64, 0i64),
        Species::Wolf => (-12500000i64, 1000000i64),
        Species::Frostfang => (-10500000i64, 0i64),
        Species::Mouflon => (-8500000i64, -500000i64),
    }
}

/// The `ears` attribute per species.
pub open spec fn ears_spec(s: Species) -> (i64, i64) {
    match s {
        Species::Grolgar => (5000000i64, 8000000i64),
        Species::Saber => (3000000i64, 5500000i64),
        Species::Tuskram => (5500000i64, 12000000i64),
        Species::Lion => (2000000i64, 3500000i64),
        Species::Tarasque => (11000000i64, -3000000i64),
        Species::Tiger => (2500000i64, 4000000i64),
        Species::Wolf => (3000000i64, 2500000i64),
        Species::Frostfang => (2000000i64, 3500000i64),
        Species::Mouflon => (2500000i64, 5000000i64),
    }
}

/// The `leg_f` attribute per species.
pub open spec fn leg_f_spec(s: Species) -> (i64, i64, i64) {
    match s {
        Species::Grolgar => (-7000000i64, 4000000i64, 0i64),
        Species::Saber => (7000000i64, -4000000i64, -3500000i64),
        Species::Tuskram => (6000000i64, -6500000i64, -500000i64),
        Species::Lion => (6500000i64, -6500000i64, -2000000i64),
        Species::Tarasque => (7000000i64, -8000000i64, -6000000i64),
        Species::Tiger => (6000000i64, -5000000i64, -3000000i64),
        Species::Wolf => (4500000i64, -6500000i64, -1000000i64),
        Species::Frostfang => (5500000i64, -5500000i64, -2000000i64),
        Species::Mouflon => (4000000i64, -5000000i64, -5000000i64),
    }
}

/// The `leg_b` attribute per species.
pub open spec fn leg_b_spec(s: Species) -> (i64, i64, i64) {
    match s {
        Species::Grolgar => (6000000i64, -6500000i64, -5500000i64),
        Species::Saber => (6000000i64, -7000000i64, -3500000i64),
        Species::Tuskram => (5000000i64, -5500000i64, -3500000i64),
        Species::Lion => (6000000i64, -6000000i64, -2000000i64),
        Species::Tarasque => (6000000i64, -6500000i64, -6500000i64),
        Species::Tiger => (6000000i64, -7500000i64, -3000000i64),
        Species::Wolf => (5000000i64, -6500000i64, -2500000i64),
        Species::Frostfang => (3500000i64, -4500000i64, -2000000i64),
        Species::Mouflon => (3500000i64, -8000000i64, -4500000i64),
    }
}

/// The `feet_f` attribute per species.
pub open spec fn feet_f_spec(s: Species) -> (i64, i64, i64) {
    match s {
        Species::Grolgar => (0i64, -9000000i64, -7000000i64),
        Species::Saber => (1000000i64, -3500000i64, -2500000i64),
        Species::Tuskram => (500000i64, 500000i64, -9000000i64),
        Species::Lion => (0i64, 0i64, -7000000i64),
        Species::Tarasque => (1000000i64, 0i64, -3000000i64),
        Species::Tiger => (500000i64, 0i64, -5000000i64),
        Species::Wolf => (500000i64, 0i64, -2000000i64),
        Species::Frostfang => (500000i64, 1500000i64, -3500000i64),
        Species::Mouflon => (-500000i64, -500000i64, -1500000i64),
    }
}

/// The `feet_b` attribute per species.
pub open spec fn feet_b_spec(s: Species) -> (i64, i64, i64) {
    match s {
        Species::Grolgar => (0i64, 0i64, -5000000i64),
        Species::Saber => (1000000i64, -1000000i64, -1000000i64),
        Species::Tuskram => (500000i64, 0i64, -3000000i64),
        Species::Lion => (500000i64, 500000i64, -5500000i64),
        Species::Tarasque => (1500000i64, -1000000i64, -2500000i64),
        Species::Tiger => (1000000i64, 500000i64, -4000000i64),
        Species::Wolf => (0i64, -1000000i64, -1500000i64),
        Species::Frostfang => (0i64, -1500000i64, -3500000i64),
        Species::Mouflon => (-1000000i64, 0i64, -2500000i64),
    }
}

/// The `scaler` attribute per species.
pub open spec fn scaler_spec(s: Species) -> i64 {
    match s {
        Species::Grolgar => 1300000i64,
        Species::Saber => 900000i64,
        Species::Tuskram => 1200000i64,
        Species::Lion => 1300000i64,
        Species::Tarasque => 1300000i64,
        Species::Tiger => 1200000i64,
        Species::Wolf => 1000000i64,
        Species::Frostfang => 1000000i64,
        Species::Mouflon => 1000000i64,
    }
}

/// The `dampen` attribute per species.
pub open spec fn dampen_spec(s: Species) -> i64 {
    match s {
        Species::Grolgar => 500000i64,
        Species::Saber => 500000i64,
        Species::Tuskram => 600000i64,
        Species::Lion => 800000i64,
        Species::Tarasque => 600000i64,
        Species::Tiger => 600000i64,
        Species::Wolf => 1000000i64,
        Species::Frostfang => 1000000i64,
        Species::Mouflon => 1000000i64,
    }
}

/// The `maximize` attribute per species.
pub open spec fn maximize_spec(s: Species) -> i64 {
    match s {
        Species::Grolgar => 2000000i64,
        Species::Saber => 1500000i64,
        Species::Tuskram => 1000000i64,
        Species::Lion => 1100000i64,
        Species::Tarasque => 1800000i64,
        Species::Tiger => 1800000i64,
        Species::Wolf => 1000000i64,
        Species::Frostfang => 1200000i64,
        Species::Mouflon => 1100000i64,
    }
}

/// The `tempo` attribute per species.
pub open spec fn tempo_spec(s: Species) -> i64 {
    match s {
        Species::Grolgar => 950000i64,
        Species::Saber => 1100000i64,
        Species::Tuskram => 900000i64,
        Species::Lion => 950000i64,
        Species::Tarasque => 950000i64,
        Species::Tiger => 1000000i64,
        Species::Wolf => 1100000i64,
        Species::Frostfang => 1000000i64,
        Species::Mouflon => 850000i64,
    }
}

/// The whole attribute row of one species, assembled from the
/// per-field tables.
pub open spec fn attr_spec(s: Species) -> SkeletonAttr {
    SkeletonAttr {
        head_upper: head_upper_spec(s),
        head_lower: head_lower_spec(s),
        jaw: jaw_spec(s),
        tail: tail_spec(s),
        torso_front: torso_front_spec(s),
        torso_back: torso_back_spec(s),
        ears: ears_spec(s),
        leg_f: leg_f_spec(s),
        leg_b: leg_b_spec(s),
        feet_f: feet_f_spec(s),
        feet_b: feet_b_spec(s),
        scaler: scaler_spec(s),
        dampen: dampen_spec(s),
        maximize: maximize_spec(s),
        tempo: tempo_spec(s),
    }
}

/// The all-zero attribute row.
pub open spec fn attr_zero_spec() -> SkeletonAttr {
    SkeletonAttr {
        head_upper: (0i64, 0i64),
        head_lower: (0i64, 0i64),
        jaw: (0i64, 0i64),
        tail: (0i64, 0i64),
        torso_front: (0i64, 0i64),
        torso_back: (0i64, 0i64),
        ears: (0i64, 0i64),
        leg_f: (0i64, 0i64, 0i64),
        leg_b: (0i64, 0i64, 0i64),
        feet_f: (0i64, 0i64, 0i64),
        feet_b: (0i64, 0i64, 0i64),
        scaler: 0,
        dampen: 0,
        maximize: 0,
        tempo: 0,
    }
}

impl SkeletonAttr {
    /// The static rig attributes of one quadruped body, exact per the
    /// per-field spec tables.
    pub fn from_body(body: &QuadrupedMediumBody) -> (r: SkeletonAttr)
        ensures
            r == attr_spec(body.species),
    {
        SkeletonAttr {
        head_upper: match body.species {
            Species::Grolgar => (0i64, -1000000i64),
            Species::Saber => (0i64, -3000000i64),
            Species::Tuskram => (0i64, 1000000i64),
            Species::Lion => (2500000i64, 2000000i64),
            Species::Tarasque => (-4000000i64, 3500000i64),
            Species::Tiger => (2000000i64, 1000000i64),
            Species::Wolf => (-500000i64, 3000000i64),
            Species::Frostfang => (1000000i64, -2000000i64),
            Species::Mouflon => (-2500000i64, 6000000i64),
        },
        head_lower: match body.species {
            Species::Grolgar => (1000000i64, -1000000i64),
            Species::Saber => (1000000i64, 0i64),
            Species::Tuskram => (1000000i64, 1000000i64),
            Species::Lion => (500000i64, 1000000i64),
            Species::Tarasque => (500000i64, -4000000i64),
            Species::Tiger => (0i64, 0i64),
            Species::Wolf => (-4500000i64, 2000000i64),
            Species::Frostfang => (2000000i64, 1500000i64),
            Species::Mouflon => (-1000000i64, 500000i64),
        },
        jaw: match body.species {
            Species::Grolgar => (7000000i64, 1500000i64),
            Species::Saber => (2500000i64, -2000000i64),
            Species::Tuskram => (5500000i64, -4000000i64),
            Species::Lion => (3500000i64, -4500000i64),
            Species::Tarasque => (9000000i64, -10000000i64),
            Species::Tiger => (3500000i64, -4000000i64),
            Species::Wolf => (5000000i64, -3000000i64),
            Species::Frostfang => (4000000i64, -3000000i64),
            Species::Mouflon => (10500000i64, -4000000i64),
        },
        tail: match body.species {
            Species::Grolgar => (-11500000i64, -500000i64),
            Species::Saber => (-11000000i64, 1000000i64),
            Species::Tuskram => (-9000000i64, 2000000i64),
            Species::Lion => (-11000000i64, 1000000i64),
            Species::Tarasque => (-11000000i64, 0i64),
            Species::Tiger => (-13500000i64, -7000000i64),
            Species::Wolf => (-11000000i64, 0i64),
            Species::Frostfang => (-7000000i64, -3500000i64),
            Species::Mouflon => (-10500000i64, 3000000i64),
        },
        torso_front: match body.species {
            Species::Grolgar => (10000000i64, 13000000i64),
            Species::Saber => (14000000i64, 14000000i64),
            Species::Tuskram => (10000000i64, 14500000i64),
            Species::Lion => (10000000i64, 14000000i64),
            Species::Tarasque => (11500000i64, 18500000i64),
            Species::Tiger => (10000000i64, 14000000i64),
            Species::Wolf => (12000000i64, 13000000i64),
            Species::Frostfang => (9000000i64, 11500000i64),
            Species::Mouflon => (11000000i64, 13500000i64),
        },
        torso_back: match body.species {
            Species::Grolgar => (-10000000i64, 1500000i64),
            Species::Saber => (-13500000i64, 0i64),
            Species::Tuskram => (-12500000i64, -2000000i64),
            Species::Lion => (-12000000i64, -500000i64),
            Species::Tarasque => (-14000000i64, -1000000i64),
            Species::Tiger => (-13000000i64, 0i64),
            Species::Wolf => (-12500000i64, 1000000i64),
            Species::Frostfang => (-10500000i64, 0i64),
            Species::Mouflon => (-8500000i64, -500000i64),
        },
        ears: match body.species {
            Species::Grolgar => (5000000i64, 8000000i64),
            Species::Saber => (3000000i64, 5500000i64),
            Species::Tuskram => (5500000i64, 12000000i64),
            Species::Lion => (2000000i64, 3500000i64),
            Species::Tarasque => (11000000i64, -3000000i64),
            Species::Tiger => (2500000i64, 4000000i64),
            Species::Wolf => (3000000i64, 2500000i64),
            Species::Frostfang => (2000000i64, 3500000i64),
            Species::Mouflon => (2500000i64, 5000000i64),
        },
        leg_f: match body.species {
            Species::Grolgar => (-7000000i64, 4000000i64, 0i64),
            Species::Saber => (7000000i64, -4000000i64, -3500000i64),
            Species::Tuskram => (6000000i64, -6500000i64, -500000i64),
            Species::Lion => (6500000i64, -6500000i64, -2000000i64),
            Species::Tarasque => (7000000i64, -8000000i64, -6000000i64),
            Species::Tiger => (6000000i64, -5000000i64, -3000000i64),
            Species::Wolf => (4500000i64, -6500000i64, -1000000i64),
            Species::Frostfang => (5500000i64, -5500000i64, -2000000i64),
            Species::Mouflon => (4000000i64, -5000000i64, -5000000i64),
        },
        leg_b: match body.species {
            Species::Grolgar => (6000000i64, -6500000i64, -5500000i64),
            Species::Saber => (6000000i64, -7000000i64, -3500000i64),
            Species::Tuskram => (5000000i64, -5500000i64, -3500000i64),
            Species::Lion => (6000000i64, -6000000i64, -2000000i64),
            Species::Tarasque => (6000000i64, -6500000i64, -6500000i64),
            Species::Tiger => (6000000i64, -7500000i64, -3000000i64),
            Species::Wolf => (5000000i64, -6500000i64, -2500000i64),
            Species::Frostfang => (3500000i64, -4500000i64, -2000000i64),
            Species::Mouflon => (3500000i64, -8000000i64, -4500000i64),
        },
        feet_f: match body.species {
            Species::Grolgar => (0i64, -9000000i64, -7000000i64),
            Species::Saber => (1000000i64, -3500000i64, -2500000i64),
            Species::Tuskram => (500000i64, 500000i64, -9000000i64),
            Species::Lion => (0i64, 0i64, -7000000i64),
            Species::Tarasque => (1000000i64, 0i64, -3000000i64),
            Species::Tiger => (500000i64, 0i64, -5000000i64),
            Species::Wolf => (500000i64, 0i64, -2000000i64),
            Species::Frostfang => (500000i64, 1500000i64, -3500000i64),
            Species::Mouflon => (-500000i64, -500000i64, -1500000i64),
        },
        feet_b: match body.species {
            Species::Grolgar => (0i64, 0i64, -5000000i64),
            Species::Saber => (1000000i64, -1000000i64, -1000000i64),
            Species::Tuskram => (500000i64, 0i64, -3000000i64),
            Species::Lion => (500000i64, 500000i64, -5500000i64),
            Species::Tarasque => (1500000i64, -1000000i64, -2500000i64),
            Species::Tiger => (1000000i64, 500000i64, -4000000i64),
            Species::Wolf => (0i64, -1000000i64, -1500000i64),
            Species::Frostfang => (0i64, -1500000i64, -3500000i64),
            Species::Mouflon => (-1000000i64, 0i64, -2500000i64),
        },
        scaler: match body.species {
            Species::Grolgar => 1300000i64,
            Species::Saber => 900000i64,
            Species::Tuskram => 1200000i64,
            Species::Lion => 1300000i64,
            Species::Tarasque => 1300000i64,
            Species::Tiger => 1200000i64,
            Species::Wolf => 1000000i64,
            Species::Frostfang => 1000000i64,
            Species::Mouflon => 1000000i64,
        },
        dampen: match body.species {
            Species::Grolgar => 500000i64,
            Species::Saber => 500000i64,
            Species::Tuskram => 600000i64,
            Species::Lion => 800000i64,
            Species::Tarasque => 600000i64,
            Species::Tiger => 600000i64,
            Species::Wolf => 1000000i64,
            Species::Frostfang => 1000000i64,
            Species::Mouflon => 1000000i64,
        },
        maximize: match body.species {
            Species::Grolgar => 2000000i64,
            Species::Saber => 1500000i64,
            Species::Tuskram => 1000000i64,
            Species::Lion => 1100000i64,
            Species::Tarasque => 1800000i64,
            Species::Tiger => 1800000i64,
            Species::Wolf => 1000000i64,
            Species::Frostfang => 1200000i64,
            Species::Mouflon => 1100000i64,
        },
        tempo: match body.species {
            Species::Grolgar => 950000i64,
            Species::Saber => 1100000i64,
            Species::Tuskram => 900000i64,
            Species::Lion => 950000i64,
            Species::Tarasque => 950000i64,
            Species::Tiger => 1000000i64,
            Species::Wolf => 1100000i64,
            Species::Frostfang => 1000000i64,
            Species::Mouflon => 850000i64,
        },
        }
    }
}

impl SkeletonAttr {
    /// The attributes of a body that has them: only a quadruped body
    /// can be turned into this rig's attributes, and its whole row is
    /// the species' table entry.
    pub fn try_from_body(body: &Body) -> (r: Result<SkeletonAttr, ()>)
        ensures
            r is Ok <==> body is QuadrupedMedium,
            body matches Body::QuadrupedMedium(b) ==> r matches Ok(a) && a == attr_spec(
                b.species,
            ),
    {
        match body {
            Body::QuadrupedMedium(b) => Ok(SkeletonAttr::from_body(b)),
            Body::Other => Err(()),
        }
    }
}

impl Default for SkeletonAttr {
    /// The neutral attribute row: every field zero.
    fn default() -> (r: Self)
        ensures
            r == attr_zero_spec(),
    {
        SkeletonAttr {
            head_upper: (0, 0),
            head_lower: (0, 0),
            jaw: (0, 0),
            tail: (0, 0),
            torso_front: (0, 0),
            torso_back: (0, 0),
            ears: (0, 0),
            leg_f: (0, 0, 0),
            leg_b: (0, 0, 0),
            feet_f: (0, 0, 0),
            feet_b: (0, 0, 0),
            scaler: 0,
            dampen: 0,
            maximize: 0,
            tempo: 0,
        }
    }
}

} // verus!
