//! The decisions of a CSI driver for rspacefs data volumes.
//!
//! A volume is a writable upper over read-only lower layers that are seeded from
//! an OCI registry, and its upper can be captured back as a new revision.
//! Publishing a volume, freezing it, pulling and pushing are runs of steps: a
//! state says what it asks for (`effect`), and what came of that leads to the
//! next state (`resume`). What is asked for is performed elsewhere.

pub mod client;
pub mod control;
pub mod controller;
pub mod driver;
pub mod effect;
pub mod freeze;
pub mod identity;
pub mod map;
pub mod mount;
pub mod node;
pub mod oci;
pub mod outside;
pub mod params;
pub mod pull;
pub mod push;
pub mod registry;
pub mod roundtrip;
pub mod server;
pub mod status;
pub mod text;
