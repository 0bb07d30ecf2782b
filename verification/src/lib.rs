//! A local-network file share: the configuration of the server, the
//! addresses it binds and advertises, and the QR code that a nearby device
//! scans to reach it.

pub mod config;
pub mod address;
pub mod qr;
pub mod startup;
