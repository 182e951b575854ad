//! The closed set of failures the engine's decision core can report.
//!
//! Every one of these is an unrecoverable initialization failure: the engine
//! cannot render without a suitable accelerator, an exactly matching surface
//! format and the required present mode.

use vstd::prelude::*;

verus! {

/// Why engine initialization cannot proceed.
#[derive(Clone, Copy, Debug, PartialEq, Eq, Structural)]
pub enum EngineError {
    /// No enumerated physical accelerator satisfies every requirement.
    NoSuitableDevice,
    /// The surface does not support the required (format, color space) pair.
    MissingSurfaceFormat,
    /// The surface does not support the required present mode.
    MissingPresentMode,
}

impl EngineError {
    /// A short description, for the runtime to log or abort with.
    pub fn describe(&self) -> (text: &'static str)
        ensures
            self is NoSuitableDevice ==> text@ == "no suitable physical device"@,
            self is MissingSurfaceFormat ==> text@ == "surface format not supported"@,
            self is MissingPresentMode ==> text@ == "present mode not supported"@,
    {
        match self {
            EngineError::NoSuitableDevice => "no suitable physical device",
            EngineError::MissingSurfaceFormat => "surface format not supported",
            EngineError::MissingPresentMode => "present mode not supported",
        }
    }
}

} // verus!
