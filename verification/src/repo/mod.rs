pub mod store;
pub mod in_memory;
