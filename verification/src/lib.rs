pub mod version;
pub mod extensions;
pub mod features;
pub mod physical;
pub mod lists;
pub mod error;
pub mod create_info;
pub mod device;
pub mod memory;
pub mod queries;
