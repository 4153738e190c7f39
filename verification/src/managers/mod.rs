pub mod asset_data;
pub mod asset_table;
pub mod assets_manager;
pub mod object_cache;
