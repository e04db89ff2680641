//! Error values of a native GUI toolkit and the diagnostic text of each.
//!
//! A [`system_error::SystemError`] is a failure of the operating system; an
//! [`error::Error`] is a failure of the toolkit, which may wrap a system
//! error. Every error renders to one English sentence. The sentence of a
//! system error ends with the code and message that the operating system
//! last recorded, handed in as an [`os_error::OsError`].

pub mod decimal;
pub mod os_error;
pub mod event;
pub mod system_error;
pub mod error;
