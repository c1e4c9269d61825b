pub mod math;
pub mod rate_limit;
