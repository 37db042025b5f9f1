//! A registry of guide identity verifications: a submitter files a record,
//! and the registry's single administrator approves or rejects it once.

pub mod address;
pub mod model;
pub mod registry;
pub mod laws;
