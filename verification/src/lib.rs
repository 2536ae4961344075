//! The control software of a motorised microscope: the protocol between host
//! and controller board, the board's stage motor controller, the operator
//! console, z-scans, the backend's camera and log handling, and the compute
//! node's image processing plans.
use vstd::prelude::*;

pub mod backend;
pub mod camera;
pub mod command;
pub mod console;
pub mod filters;
pub mod focus;
pub mod frames;
pub mod gpu;
pub mod logs;
pub mod node;
pub mod packet;
pub mod progress;
pub mod routes;
pub mod stage;
pub mod text;
pub mod uart;
pub mod zscan;

verus! {

/// Does nothing; part of the link library's interface.
pub fn test() {
}

} // verus!
