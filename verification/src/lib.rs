//! The decision core of a small multi-tenant camera server: token
//! authentication, ownership-based access control, account and camera
//! creation with compensation, and the rules of the per-camera image store.
//!
//! Nothing here performs I/O. Every handler is a process that names the
//! [`effect::Effect`] it needs next and is advanced with the
//! [`effect::Reply`] that came back; the surrounding program performs the
//! effects against the relational store and the file system.

pub mod api_error;
pub mod camera;
pub mod camera_tokens;
pub mod config;
pub mod directory;
pub mod effect;
pub mod identifier;
pub mod images;
pub mod password;
pub mod store;
pub mod user;
pub mod user_tokens;
pub mod users_cameras;
