//! A verified core for a USB-redirection security proxy.
//!
//! The library parses and validates USBR frames flowing between a trusted
//! host endpoint and an untrusted guest endpoint, maintains a virtual model
//! of the redirected device built from observed descriptors, and runs every
//! message through a pipeline of inspection stages that either forward it or
//! terminate the connection.

pub mod bytes;
pub mod config;
pub mod control_checks;
pub mod endpoint;
pub mod kvmap;
pub mod modules;
pub mod parser;
pub mod patcher;
pub mod reset;
pub mod usb;
pub mod usbr;
