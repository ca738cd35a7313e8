//! A file and link sharing service: uploads are stored under generated
//! names, links redirect to their destination, and every request handler is
//! a verified sequence of decisions between the I/O steps it asks for.
pub mod database;
pub mod modules;
pub mod routes;
pub mod storage;
pub mod text;
