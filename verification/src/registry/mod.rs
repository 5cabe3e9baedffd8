pub mod vault;
pub mod registry_index;
pub mod installed;
pub mod model_registry;
