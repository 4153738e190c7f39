pub mod animation_state;
pub mod collider;
pub mod component_types;
pub mod metadata;
pub mod rigid_body;
pub mod system;
