//! Session and upload orchestration for a personal remote file store:
//! a durable metadata log of uploaded files, the byte-size formatter used
//! to present it, and the decision logic of the authentication and upload
//! workflows, stated as state machines that an outside driver runs.

pub mod size_format;
pub mod store;
pub mod upload;
pub mod auth;
pub mod session;
