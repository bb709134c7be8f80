pub mod device;
pub mod error;
pub mod id;
pub mod memory;
pub mod model;
pub mod privilege;
pub mod role;
pub mod source;
pub mod text;
pub mod user;
pub mod version;
