pub mod ecs;
pub mod ecs_laws;
pub mod ecs_macros;
pub mod world;
