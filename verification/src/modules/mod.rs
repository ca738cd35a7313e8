//! Building blocks of the handlers: password hashing, content sniffing and
//! name generation.
pub mod mime;
pub mod password;
pub mod random;
pub mod template;
