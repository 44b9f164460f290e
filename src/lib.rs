//! Instance metadata for programs running on AWS EC2 instances.
//!
//! The instance-identity document is a small JSON object that the metadata
//! service serves on a fixed local address. This library decodes that text into
//! an [`metadata::InstanceMetadata`] record, with checked accessors for the
//! fields whose raw text is turned into a stronger type on demand.

pub mod metadata;
pub mod myerr;
