//! SA-MP / open.mp plugin SDK: the decision logic behind the AMX
//! interface, with its behaviour stated and proved.
//!
//! - `consts`    — protocol constants and flags
//! - `types`     — cell types and the AMX header model
//! - `error`     — AMX error codes
//! - `helpers`   — header arithmetic, string transfer steps, native redirection
//! - `component` — open.mp component metadata
//! - `plugin`    — native registration decisions of a plugin
pub mod consts;
pub mod error;
pub mod helpers;
pub mod types;
pub mod component;
pub mod plugin;
