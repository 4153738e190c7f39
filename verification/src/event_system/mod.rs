pub mod event_system;
pub mod event_types;
pub mod global_event_system;
pub mod movement;
