//! Orchestration core for provisioning and running containers described by an
//! environment definition file (EDF). It derives the four storage contexts an
//! engine invocation can run under, decodes the engine's reported default
//! graph root, decides when an image must be pulled and migrated into the
//! deduplicated store, and sequences pull, migrate, verify and launch with a
//! fatal-on-inconsistency failure policy. The engine and store drivers
//! themselves are external collaborators; this crate only plans and checks
//! what they are asked to do.

pub mod context;
pub mod graphroot;
pub mod pipeline;
pub mod report;
