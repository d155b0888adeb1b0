//! Core data model and parsing contracts for a dependency-management tool.
//!
//! Two independent format adapters feed a shared dependency-coordinate
//! concept:
//!
//! - [`manifest`] decodes a project's declared dependency list from a
//!   TOML document mapping short dependency names to an organization
//!   identifier and a version string.
//! - [`maven`] decodes two remote-repository document shapes: a
//!   per-artifact metadata document listing the known versions of one
//!   artifact, and a per-version descriptor ("POM") listing that
//!   version's own dependencies with optional scopes.
//!
//! Both adapters are pure, one-shot transforms from document text to a
//! typed value or a [`decode::DecodeError`]; neither performs any
//! retrieval or caching.

pub mod decode;
pub mod manifest;
pub mod maven;
pub mod text;
pub mod xml;
