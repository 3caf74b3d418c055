//! Verified core of a small Hurd/Mach RPC toolkit: message-header and
//! descriptor encoding, the `routine!` grammar parser and client-stub
//! generator, and the decision logic of the trivfs, shutdown and init
//! servers.
#![allow(non_camel_case_types, non_upper_case_globals, non_snake_case)]

pub mod decimal;
pub mod emit;
pub mod hex;
pub mod init;
pub mod mach;
pub mod parse;
pub mod ports;
pub mod rpc;
pub mod shutdown;
pub mod text;
pub mod trivfs;
pub mod wait;
