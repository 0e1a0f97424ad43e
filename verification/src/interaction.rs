//! Interaction-point records shared between lights, scene queries and the
//! visibility tester.

use vstd::prelude::*;
use crate::geometry::{
    pnt3_bounded, Normal3, Point2, Point3, Ray, Vector3,
};
use crate::num::ONE;

verus! {

/// The minimal record of a point where light is evaluated: a position, its
/// positional error bound, the outgoing direction, the surface normal and a
/// time.  Degenerate (no-surface) records carry zero vectors.
#[derive(Clone, Copy, PartialEq, Eq, Structural, Debug)]
pub struct InteractionCommon {
    pub p: Point3,
    pub time: i64,
    pub p_error: Vector3,
    pub wo: Vector3,
    pub n: Normal3,
}

impl InteractionCommon {
    /// The segment ray from this record's position to `other`'s, with the
    /// full parametric range [0, ONE].  The exact integer occlusion tests
    /// downstream use strict interior comparisons, so no error-bound
    /// offsetting of the endpoints is required.
    pub fn spawn_ray_to(&self, other: &InteractionCommon) -> (r: Ray)
        requires
            pnt3_bounded(self.p),
            pnt3_bounded(other.p),
        ensures
            r.o == self.p,
            r.d.x == other.p.x - self.p.x,
            r.d.y == other.p.y - self.p.y,
            r.d.z == other.p.z - self.p.z,
            r.t_max == ONE,
            r.time == self.time,
    {
        Ray {
            o: self.p,
            d: Vector3 {
                x: other.p.x - self.p.x,
                y: other.p.y - self.p.y,
                z: other.p.z - self.p.z,
            },
            t_max: ONE,
            time: self.time,
        }
    }
}

impl InteractionCommon {
    /// The degenerate record at the origin.
    pub open spec fn default_spec() -> InteractionCommon {
        InteractionCommon {
            p: Point3 { x: 0, y: 0, z: 0 },
            time: 0,
            p_error: Vector3 { x: 0, y: 0, z: 0 },
            wo: Vector3 { x: 0, y: 0, z: 0 },
            n: Normal3 { x: 0, y: 0, z: 0 },
        }
    }
}

impl Default for InteractionCommon {
    /// A degenerate record at the origin.
    fn default() -> (r: InteractionCommon)
        ensures
            r.p == (Point3 { x: 0, y: 0, z: 0 }),
            r.time == 0,
            r.p_error == (Vector3 { x: 0, y: 0, z: 0 }),
            r.wo == (Vector3 { x: 0, y: 0, z: 0 }),
            r.n == (Normal3 { x: 0, y: 0, z: 0 }),
    {
        InteractionCommon {
            p: Point3 { x: 0, y: 0, z: 0 },
            time: 0,
            p_error: Vector3 { x: 0, y: 0, z: 0 },
            wo: Vector3 { x: 0, y: 0, z: 0 },
            n: Normal3 { x: 0, y: 0, z: 0 },
        }
    }
}

/// A surface hit as handed to materials: the common record plus the
/// parametric surface coordinates of the hit.
#[derive(Clone, Copy, PartialEq, Eq, Structural, Debug)]
pub struct SurfaceInteraction {
    pub common: InteractionCommon,
    pub uv: Point2,
}

} // verus!
