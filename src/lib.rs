//! Random operator picks for the rounds of a match: a primary selection per
//! role and a backup selection that avoids the primary picks where it can.

pub mod random;
pub mod sampler;
pub mod rounds;
pub mod version;
pub mod summary;
pub mod update;
