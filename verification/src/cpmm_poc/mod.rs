pub mod errors;
pub mod helpers;
pub mod state;
pub mod instructions;
