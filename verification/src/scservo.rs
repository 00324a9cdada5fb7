//! Register-level access to the servo families, one module each, on top of
//! the byte-level protocol of [`crate::scs`].

pub mod scscl;
pub mod sms;
pub mod smsbl;
pub mod smscl;
pub mod smssts;
pub mod utils;
