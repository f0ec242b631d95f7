//! A sans-I/O core for blocking IPv4 TCP sockets and for completion ports.
//!
//! Nothing in this crate talks to the operating system. Every operation is
//! split in two: a function that says which system call has to be made, with
//! every argument fixed, and a function that says what the system's answer
//! means. A driver makes the calls; the rules about handles, byte order,
//! cleanup on failure and the reading of return values live here, where they
//! are proved.
#![allow(non_camel_case_types)]
#![allow(non_snake_case)]

pub mod queue;
pub mod socket;
