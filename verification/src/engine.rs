//! The minimal application shell: a trait the embedding program implements
//! and an engine that drives it.

use vstd::prelude::*;

verus! {

/// Projection kind of a scene camera.
#[allow(non_camel_case_types)]
#[derive(Clone, Copy, Debug, PartialEq, Eq, Structural)]
pub enum CameraType {
    PERSPECTIVE,
    ORTHOGRAPHIC,
}

/// An application the engine can run. Implementations live with the
/// platform layer; a failed run reports its reason as text.
pub trait App {
    fn run(&mut self) -> Result<(), String>;
}

/// The engine owns the application and forwards the run loop to it.
pub struct Engine<A: App> {
    pub app: A,
}

impl<A: App> Engine<A> {
    /// Run the owned application to completion.
    pub fn run(&mut self) -> Result<(), String> {
        self.app.run()
    }
}

} // verus!
