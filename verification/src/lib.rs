//! Lifecycle management for a locally installed content package.
//!
//! A remote catalog lists the known versions and the patches between them.
//! From it and from the version marker inside the installation, this
//! library decides what to do: install from scratch, update by the patch
//! that is published for the installed version, or verify and repair. The
//! byte-level work (downloads, extraction, the patch engine, every access
//! to disk and network) is done by the caller: each workflow is a state
//! machine that names the next piece of outside work and is told how it
//! ended.
//!
//! - [`version`]: the catalog, the version marker, the resolution of the
//!   latest version and of the applicable patch, and the migration from the
//!   legacy marker.
//! - [`ctx`]: the session context.
//! - [`workflows`]: the install, update and verify workflows.
//! - [`butler`]: what is asked of the patch engine.
//! - [`depends`]: where the patch engine's own files are kept.
//! - [`wizard`]: the interactive surface.
//! - [`decimal`], [`helper`], [`error`], [`model`]: number notation, paths
//!   and the free-space rule, failures, and modelling helpers.
//!
//! Every function states its result as a mathematical function of its
//! arguments, and the properties that relate several functions, or hold of
//! every run of a workflow, are stated and proved as `lemma_` functions
//! beside them.

pub mod butler;
pub mod ctx;
pub mod decimal;
pub mod depends;
pub mod error;
pub mod helper;
pub mod model;
pub mod version;
pub mod wizard;
pub mod workflows;
