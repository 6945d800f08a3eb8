//! The verified core of a small file browser for the local network.
//!
//! The server around this library lets a client log in, lists the
//! directories below its root and hands out the files in them. What it
//! decides is decided here, on plain values: who may log in
//! ([`credentials`]), which requests belong to a session ([`session`]), what
//! a listing shows ([`listing`]) and what each route answers ([`routes`],
//! [`response`]), the front-end page among it ([`page`]). Reading requests,
//! scanning directories and sending answers is left to the program that uses
//! the library.

pub mod credentials;
pub mod listing;
pub mod page;
pub mod response;
pub mod routes;
pub mod session;
pub mod text;
