//! The names of the component types used across the application.
use vstd::prelude::*;

verus! {

/// Every component type in the application.
#[derive(Debug, Clone, Copy, PartialEq, Eq, Structural, Hash)]
pub enum ComponentType {
    Transform,
    Metadata,
    Camera,
    Collider,
    StaticObject3D,
    AnimatedObject3D,
    Shape,
    Material,
    Mesh,
    Animator,
    AnimationState,
    Skeleton,
}

/// The name of a component type: the name of its variant.
pub open spec fn component_type_name(t: ComponentType) -> Seq<char> {
    match t {
        ComponentType::Transform => "Transform"@,
        ComponentType::Metadata => "Metadata"@,
        ComponentType::Camera => "Camera"@,
        ComponentType::Collider => "Collider"@,
        ComponentType::StaticObject3D => "StaticObject3D"@,
        ComponentType::AnimatedObject3D => "AnimatedObject3D"@,
        ComponentType::Shape => "Shape"@,
        ComponentType::Material => "Material"@,
        ComponentType::Mesh => "Mesh"@,
        ComponentType::Animator => "Animator"@,
        ComponentType::AnimationState => "AnimationState"@,
        ComponentType::Skeleton => "Skeleton"@,
    }
}

impl ComponentType {
    /// The name of this component type.
    pub fn as_str(&self) -> (res: &'static str)
        ensures
            res@ == component_type_name(*self),
    {
        match self {
            ComponentType::Transform => "Transform",
            ComponentType::Metadata => "Metadata",
            ComponentType::Camera => "Camera",
            ComponentType::Collider => "Collider",
            ComponentType::StaticObject3D => "StaticObject3D",
            ComponentType::AnimatedObject3D => "AnimatedObject3D",
            ComponentType::Shape => "Shape",
            ComponentType::Material => "Material",
            ComponentType::Mesh => "Mesh",
            ComponentType::Animator => "Animator",
            ComponentType::AnimationState => "AnimationState",
            ComponentType::Skeleton => "Skeleton",
        }
    }
}

/// Distinct component types have distinct names, so a name identifies its
/// type.
pub proof fn law_names_distinct(a: ComponentType, b: ComponentType)
    requires
        a != b,
    ensures
        component_type_name(a) != component_type_name(b),
{
    reveal_strlit("Transform");
    reveal_strlit("Metadata");
    reveal_strlit("Camera");
    reveal_strlit("Collider");
    reveal_strlit("StaticObject3D");
    reveal_strlit("AnimatedObject3D");
    reveal_strlit("Shape");
    reveal_strlit("Material");
    reveal_strlit("Mesh");
    reveal_strlit("Animator");
    reveal_strlit("AnimationState");
    reveal_strlit("Skeleton");
    let (na, nb) = (component_type_name(a), component_type_name(b));
    if na == nb {
        // The names differ in length or within their first five letters.
        assert(na.len() == nb.len());
        assert(na[0] == nb[0] && na[1] == nb[1] && na[2] == nb[2]);
        assert(na[3] == nb[3] && na[4] == nb[4]);
    }
}

} // verus!
