pub mod native_bridge;
