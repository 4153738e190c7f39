//! Engine core: the entity-component store, component data, input and
//! event dispatch, and asset caches, with their contracts.
pub mod components;
pub mod event_system;
pub mod gui;
pub mod managers;
pub mod modules;
