//! The wire schema of every entity: the name of each field on the wire,
//! which fields may be left out, and the proof that what is written is read
//! back.

pub mod allocation;
pub mod group;
pub mod job;
pub mod messages;
pub mod network;
pub mod resources;
pub mod status;
pub mod task;
