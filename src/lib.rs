pub mod error;
pub mod guarantees;
pub mod instruction;
pub mod keys;
pub mod processor;
pub mod state;
pub mod token;
