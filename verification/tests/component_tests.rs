use engine::components::animation_state::AnimationType;
use engine::components::collider::{collision_check, CollisionCheck, ColliderLayer, ShapeKind};
use engine::components::component_types::ComponentType;
use engine::components::metadata::Metadata;
use engine::components::rigid_body::RigidBody;

#[test]
fn rigid_body_starts_with_unit_momentum() {
    assert_eq!(RigidBody::new().momentum, 1);
}

#[test]
fn metadata_defaults_to_persistent() {
    let m = Metadata::new("Player", Some("hero"), None);
    assert_eq!(m.title(), "Player");
    assert_eq!(m.role(), Some("hero"));
    assert!(m.is_persist);
    let n = Metadata::new("Prop", None, Some(false));
    assert_eq!(n.title, "Prop");
    assert_eq!(n.role(), None);
    assert!(!n.is_persist);
    let c = n.clone();
    assert_eq!(c.title, n.title);
    assert_eq!(c.role, n.role);
}

#[test]
fn component_type_names() {
    let all = [
        (ComponentType::Transform, "Transform"),
        (ComponentType::Metadata, "Metadata"),
        (ComponentType::Camera, "Camera"),
        (ComponentType::Collider, "Collider"),
        (ComponentType::StaticObject3D, "StaticObject3D"),
        (ComponentType::AnimatedObject3D, "AnimatedObject3D"),
        (ComponentType::Shape, "Shape"),
        (ComponentType::Material, "Material"),
        (ComponentType::Mesh, "Mesh"),
        (ComponentType::Animator, "Animator"),
        (ComponentType::AnimationState, "AnimationState"),
        (ComponentType::Skeleton, "Skeleton"),
    ];
    for (t, name) in all.iter() {
        assert_eq!(t.as_str(), *name);
    }
    for (a, _) in all.iter() {
        for (b, _) in all.iter() {
            assert_eq!(a == b, a.as_str() == b.as_str());
        }
    }
}

#[test]
fn animation_components_per_keyframe() {
    assert_eq!(AnimationType::Translation.components(), 3);
    assert_eq!(AnimationType::Rotation.components(), 4);
    assert_eq!(AnimationType::Scale.components(), 3);
}

#[test]
fn collider_layers_compare() {
    assert_eq!(ColliderLayer::Player, ColliderLayer::Player);
    assert_ne!(ColliderLayer::Player, ColliderLayer::Environment);
}

#[test]
fn collision_checks_by_shape_pair() {
    assert_eq!(collision_check(ShapeKind::Box, ShapeKind::Sphere), (CollisionCheck::BoxSphere, false));
    assert_eq!(collision_check(ShapeKind::Sphere, ShapeKind::Box), (CollisionCheck::BoxSphere, true));
    assert_eq!(collision_check(ShapeKind::Cylinder, ShapeKind::Cylinder), (CollisionCheck::CylinderCylinder, true));
    assert_eq!(collision_check(ShapeKind::Capsule, ShapeKind::Capsule), (CollisionCheck::CapsuleCapsule, false));
    let kinds = [ShapeKind::Sphere, ShapeKind::Capsule, ShapeKind::Box, ShapeKind::Cylinder];
    for a in kinds.iter() {
        for b in kinds.iter() {
            let (ab, sab) = collision_check(*a, *b);
            let (ba, sba) = collision_check(*b, *a);
            assert_eq!(ab, ba);
            if a != b {
                assert_ne!(sab, sba);
            }
        }
    }
}
