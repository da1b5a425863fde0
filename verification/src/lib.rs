//! A cancellable, split-capable TLS stream for a cellular modem, written as
//! verified decision logic.
//!
//! The modem's sockets and its LTE link can only be driven from asynchronous
//! code. This library therefore holds every decision of the stream as a state
//! machine: a machine names the next operation to perform on the modem, the
//! caller performs it and hands the outcome back. What the machines ask for,
//! in which order, and what they finally return is proved here.

pub mod connect;
pub mod error;
pub mod socket;
pub mod tls;
pub mod tls_stream;
pub mod transfer;
