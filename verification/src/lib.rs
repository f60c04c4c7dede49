pub mod types;
pub mod encoding;
pub mod backend;
pub mod burn;
pub mod wallet;
pub mod memory;
