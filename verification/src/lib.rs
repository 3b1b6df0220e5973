//! Generation of ink! smart-contract scaffolding (contract crate, trait crate and
//! their manifests) from a description of runtime hook points.

pub mod text;
pub mod naming;
pub mod models;
pub mod manifest;
pub mod scaffold;
pub mod laws;
