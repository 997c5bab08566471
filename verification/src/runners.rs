//! The runner core: the portable runner contract's data types and the
//! container-daemon driver that realizes the contract.

pub mod base;
pub mod docker_host;
