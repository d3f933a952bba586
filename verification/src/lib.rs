//! Cooperative task logic for a Hall-effect sensor monitor.
//!
//! Two independent tasks are modelled as explicit state machines: a sampler
//! that polls an analog-to-digital converter without blocking, and a sequencer
//! that walks a list of output channels, switching each on and off in turn.
//! Neither machine performs I/O. A run loop performs what a machine asks for
//! (a conversion, a timed suspension, a pin level) and hands back what came of
//! it.

pub mod adc;
pub mod sampler;
pub mod sampler_laws;
pub mod scheduler;
pub mod scheduler_laws;
pub mod sequencer;
pub mod sequencer_laws;
