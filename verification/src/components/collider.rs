//! Collision layers, and which shape-pair test decides whether two
//! colliders touch.
use vstd::prelude::*;

verus! {

/// The layer a collider belongs to, and may ignore.
#[derive(Clone, Copy, Debug, PartialEq, Eq, Structural)]
pub enum ColliderLayer {
    Environment,
    Player,
}

/// The kind of a collider's shape.
#[derive(Clone, Copy, Debug, PartialEq, Eq, Structural)]
pub enum ShapeKind {
    Sphere,
    Capsule,
    Box,
    Cylinder,
}

/// A shape-pair collision test. Each takes its two shapes in the order its
/// name gives them.
#[derive(Clone, Copy, Debug, PartialEq, Eq, Structural)]
pub enum CollisionCheck {
    BoxBox,
    BoxCapsule,
    BoxCylinder,
    BoxSphere,
    CapsuleCapsule,
    CapsuleCylinder,
    CapsuleSphere,
    CylinderCylinder,
    CylinderSphere,
    SphereSphere,
}

/// The test for a pair of shape kinds, and whether the pair is handed to it
/// in the opposite order. Two cylinders are handed over swapped.
pub open spec fn collision_check_for(a: ShapeKind, b: ShapeKind) -> (CollisionCheck, bool) {
    match (a, b) {
        (ShapeKind::Box, ShapeKind::Box) => (CollisionCheck::BoxBox, false),
        (ShapeKind::Box, ShapeKind::Capsule) => (CollisionCheck::BoxCapsule, false),
        (ShapeKind::Box, ShapeKind::Cylinder) => (CollisionCheck::BoxCylinder, false),
        (ShapeKind::Box, ShapeKind::Sphere) => (CollisionCheck::BoxSphere, false),
        (ShapeKind::Capsule, ShapeKind::Box) => (CollisionCheck::BoxCapsule, true),
        (ShapeKind::Capsule, ShapeKind::Capsule) => (CollisionCheck::CapsuleCapsule, false),
        (ShapeKind::Capsule, ShapeKind::Cylinder) => (CollisionCheck::CapsuleCylinder, false),
        (ShapeKind::Capsule, ShapeKind::Sphere) => (CollisionCheck::CapsuleSphere, false),
        (ShapeKind::Cylinder, ShapeKind::Box) => (CollisionCheck::BoxCylinder, true),
        (ShapeKind::Cylinder, ShapeKind::Capsule) => (CollisionCheck::CapsuleCylinder, true),
        (ShapeKind::Cylinder, ShapeKind::Cylinder) => (CollisionCheck::CylinderCylinder, true),
        (ShapeKind::Cylinder, ShapeKind::Sphere) => (CollisionCheck::CylinderSphere, false),
        (ShapeKind::Sphere, ShapeKind::Box) => (CollisionCheck::BoxSphere, true),
        (ShapeKind::Sphere, ShapeKind::Capsule) => (CollisionCheck::CapsuleSphere, true),
        (ShapeKind::Sphere, ShapeKind::Cylinder) => (CollisionCheck::CylinderSphere, true),
        (ShapeKind::Sphere, ShapeKind::Sphere) => (CollisionCheck::SphereSphere, false),
    }
}

/// Which test decides whether a collider of shape `a` touches one of shape
/// `b`, and whether the two are handed to it swapped.
pub fn collision_check(a: ShapeKind, b: ShapeKind) -> (res: (CollisionCheck, bool))
    ensures
        res == collision_check_for(a, b),
{
    match (a, b) {
        (ShapeKind::Box, ShapeKind::Box) => (CollisionCheck::BoxBox, false),
        (ShapeKind::Box, ShapeKind::Capsule) => (CollisionCheck::BoxCapsule, false),
        (ShapeKind::Box, ShapeKind::Cylinder) => (CollisionCheck::BoxCylinder, false),
        (ShapeKind::Box, ShapeKind::Sphere) => (CollisionCheck::BoxSphere, false),
        (ShapeKind::Capsule, ShapeKind::Box) => (CollisionCheck::BoxCapsule, true),
        (ShapeKind::Capsule, ShapeKind::Capsule) => (CollisionCheck::CapsuleCapsule, false),
        (ShapeKind::Capsule, ShapeKind::Cylinder) => (CollisionCheck::CapsuleCylinder, false),
        (ShapeKind::Capsule, ShapeKind::Sphere) => (CollisionCheck::CapsuleSphere, false),
        (ShapeKind::Cylinder, ShapeKind::Box) => (CollisionCheck::BoxCylinder, true),
        (ShapeKind::Cylinder, ShapeKind::Capsule) => (CollisionCheck::CapsuleCylinder, true),
        (ShapeKind::Cylinder, ShapeKind::Cylinder) => (CollisionCheck::CylinderCylinder, true),
        (ShapeKind::Cylinder, ShapeKind::Sphere) => (CollisionCheck::CylinderSphere, false),
        (ShapeKind::Sphere, ShapeKind::Box) => (CollisionCheck::BoxSphere, true),
        (ShapeKind::Sphere, ShapeKind::Capsule) => (CollisionCheck::CapsuleSphere, true),
        (ShapeKind::Sphere, ShapeKind::Cylinder) => (CollisionCheck::CylinderSphere, true),
        (ShapeKind::Sphere, ShapeKind::Sphere) => (CollisionCheck::SphereSphere, false),
    }
}

/// The kinds of the two shapes a test takes, in the order its name gives
/// them.
pub open spec fn check_kinds(c: CollisionCheck) -> (ShapeKind, ShapeKind) {
    match c {
        CollisionCheck::BoxBox => (ShapeKind::Box, ShapeKind::Box),
        CollisionCheck::BoxCapsule => (ShapeKind::Box, ShapeKind::Capsule),
        CollisionCheck::BoxCylinder => (ShapeKind::Box, ShapeKind::Cylinder),
        CollisionCheck::BoxSphere => (ShapeKind::Box, ShapeKind::Sphere),
        CollisionCheck::CapsuleCapsule => (ShapeKind::Capsule, ShapeKind::Capsule),
        CollisionCheck::CapsuleCylinder => (ShapeKind::Capsule, ShapeKind::Cylinder),
        CollisionCheck::CapsuleSphere => (ShapeKind::Capsule, ShapeKind::Sphere),
        CollisionCheck::CylinderCylinder => (ShapeKind::Cylinder, ShapeKind::Cylinder),
        CollisionCheck::CylinderSphere => (ShapeKind::Cylinder, ShapeKind::Sphere),
        CollisionCheck::SphereSphere => (ShapeKind::Sphere, ShapeKind::Sphere),
    }
}

/// The chosen test takes the two shapes in the order its name gives them:
/// handed over as they come, or swapped, the first shape it gets has the
/// first kind its name names and the second the second. Where the kinds
/// differ, a pair is swapped exactly when its first kind is not the one the
/// test names first.
pub proof fn law_collision_check_order(a: ShapeKind, b: ShapeKind)
    ensures
        check_kinds(collision_check_for(a, b).0) == (if collision_check_for(a, b).1 {
            (b, a)
        } else {
            (a, b)
        }),
        a != b ==> (collision_check_for(a, b).1 <==> check_kinds(collision_check_for(a, b).0).0
            != a),
{
}

/// A pair of shapes meets the same test in either order, and where the
/// kinds differ exactly one of the two orders is handed over swapped.
pub proof fn law_collision_check_symmetric(a: ShapeKind, b: ShapeKind)
    ensures
        collision_check_for(a, b).0 == collision_check_for(b, a).0,
        a != b ==> collision_check_for(a, b).1 != collision_check_for(b, a).1,
{
}

} // verus!
