//! Why a startup step failed.
use vstd::prelude::*;

verus! {

/// The ways in which bringing up an instance can fail.
#[derive(Debug)]
pub enum StartupError {
    /// No driver entry point could be loaded.
    DriverAbsent,
    /// A name to be stored as a C string holds a NUL byte.
    NameHoldsNul,
    /// A required layer is missing from the driver's supported layers.
    LayerUnsupported { name: String },
    /// A driver call returned this error code.
    DriverCallFailed { code: i32 },
}

} // verus!
