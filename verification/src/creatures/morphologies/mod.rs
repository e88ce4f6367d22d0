//! Ready-made morphologies.

pub mod human;
pub mod roper;
