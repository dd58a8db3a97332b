//! A verified model of a Media Foundation capture backend.
//!
//! The platform itself is reached from outside this crate. Every decision the
//! backend takes about what the platform reported is taken here: how attribute
//! bundles become device descriptors, how packed media type attributes become
//! capture formats, which native control stands behind a camera control, and
//! how a capture session moves through its life.

pub mod controls;
pub mod device;
pub mod enumerate;
pub mod error;
pub mod formats;
pub mod frames;
pub mod lifecycle;
pub mod text;
pub mod types;
