//! The verified core of the Apollo chart file server: content-addressed file
//! storage, request identifiers, upload authorization, server configuration and
//! the decisions that the HTTP routes take between their database and storage calls.

pub mod decimal;
pub mod storage;
pub mod guards;
pub mod local_storage;
pub mod s3_storage;
pub mod server;
pub mod routes;
