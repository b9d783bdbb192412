//! Domain and persistence core of a project and task tracker.
//!
//! Entities (`Project`, `Task`) carry identity and audit fields, the
//! repository traits describe storage by an abstract map from identifier to
//! entity, and the services enforce that an entity exists before it is
//! changed or removed.
pub mod clock;
pub mod config;
pub mod error;
pub mod handlers;
pub mod ids;
pub mod memory;
pub mod project;
pub mod records;
pub mod repository;
pub mod service;
pub mod task;
pub mod text;
