//! A stand-in for the local device multiplexing daemon: the frame codec and
//! reassembly, the accept loop's recovery rules, the two emulated requests, and
//! the staged package transfer workflow that drives a paired device.
pub mod acceptor;
pub mod dispatch;
pub mod errors;
pub mod frame;
mod owned;
pub mod staging;
