//! What the explorer's server answers: the shapes of its answers and the
//! decisions it takes on the data it reads.
pub mod endpoints;
pub mod proposals;
pub mod tx;
