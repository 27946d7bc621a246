//! Static analysis of an application's source tree for the infrastructure
//! resources that it declares and the way its code uses them.
//!
//! - [`module_loader`] turns import specifiers into modules, each parsed
//!   once and kept by the identity of its file.
//! - [`resourceparser`] finds the resources that a module declares.
//! - [`objects`] infers which operations a piece of code performs on a
//!   bucket.
//! - [`infracfg`] maps the infrastructure configuration of a
//!   self-hosted application into its deployment descriptor, [`runtime`].
pub mod diagnostics;
pub mod fileset;
pub mod infracfg;
pub mod module_loader;
pub mod objects;
pub mod paths;
pub mod resourceparser;
pub mod rid;
pub mod syntax;
pub mod runtime;
pub mod text;
pub mod types;
pub mod usageparser;
