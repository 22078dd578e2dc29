//! A minimal command interpreter front end: resolution of the interpreter's
//! own invocation arguments, line normalisation, command splitting and the
//! bookkeeping of the last return code, with every rule stated as a contract.

pub mod dispatch;
pub mod errors;
pub mod invocation;
pub mod rash;
pub mod text;
