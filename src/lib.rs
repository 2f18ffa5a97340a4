pub mod error;
pub mod key;
pub mod bytes;
pub mod state;
pub mod instruction;
pub mod plan;
pub mod processor;
pub mod laws;
