//! Coordination core of a terminal music-playback controller.
//!
//! Three concurrent tasks — an output/ticker task, a control task and a UI
//! task — share one playback handle and exchange messages on two channels.
//! This library holds the verified heart of that design: the action model,
//! the control task's dispatch rules, the UI task's position prediction and
//! key handling, the publish-once discipline around the shared handle, and
//! an abstract model of the audio engine against which the laws of the
//! system are proved.
//!
//! Time is measured in whole milliseconds and volume in hundredths of the
//! full scale, so that every quantity is an exact integer; the unverified
//! shell converts to and from the audio engine's floating-point seconds
//! and levels at the boundary.

pub mod action;
pub mod control;
pub mod display;
pub mod engine;
pub mod handle;
pub mod laws;
