//! Data structures and processing for web application manifests.
//!
//! The crate models a manifest document whose URL-valued fields may be
//! absolute, relative or unknown, and provides the resolution and
//! validation engine ([`WebAppManifest::process`]) that rewrites every
//! URL field to an absolute URL anchored at the right base, enforcing
//! same-origin and scope-containment rules.

pub mod errors;
pub mod laws;
pub mod manifest;
pub mod resources;
pub mod types;

pub use manifest::WebAppManifest;
