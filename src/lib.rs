//! A small CubeSat-style space protocol stack: a bit-packed addressing
//! header, a CRC-32C integrity trailer, KISS byte-stuffing framing, a
//! connection state machine and a router that hands packets between link
//! interfaces and the application.

pub mod conn;
pub mod crc32;
pub mod csp;
pub mod endian;
pub mod id;
pub mod if_kiss;
pub mod interface;
pub mod io;
pub mod qfifo;
pub mod services;
pub mod types;
pub mod utils;
