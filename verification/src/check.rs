//! `robo check`: what is inspected about a project and its runtime, and the
//! lines reported about it.
pub mod output;
pub mod cuda;
pub mod native;
pub mod python;
pub mod summary;
pub mod detail;
pub mod deep;
