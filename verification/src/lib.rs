pub mod address;
pub mod errors;
pub mod helpers;
pub mod std_ints;
pub mod clock;
pub mod state;
pub mod instructions;
pub mod cpmm_poc;
pub mod laws;
