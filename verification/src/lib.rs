//! Core of an orthogonal tile-map renderer.
//!
//! The crate turns a parsed tile-map description — grid dimensions and
//! per-cell tile identifiers organised by named layer, together with a
//! tileset atlas — into renderer-ready data: a shared plane mesh, per-layer
//! encoded tile buffers with a fixed capacity bound, and per-frame draw
//! plans filtered by layer name. File and GPU work stays outside; every
//! function here works on plain values and carries a proved contract.

pub mod atlas;
pub mod compile;
pub mod encode;
pub mod error;
pub mod mesh;
pub mod pass;
