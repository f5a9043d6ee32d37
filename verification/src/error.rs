//! The errors that an operation can return.
//!
//! They cover what a caller cannot foresee: memory running out, a device or a
//! surface being lost, a native object that cannot be made. What a caller can
//! foresee is its own duty and never comes back as an error: it is the
//! precondition of the operation.

use vstd::prelude::*;
use vstd::std_specs::convert::FromSpecImpl;

use crate::types::ShaderStage;
use crate::flags::ShaderStages;

verus! {

/// What can go wrong with a device.
#[derive(Clone, Copy, Debug, PartialEq, Eq, Hash, Structural)]
pub enum DeviceError {
    /// Memory ran out. A smaller request may still succeed.
    OutOfMemory,
    /// The device is lost. Every later operation on it fails too.
    Lost,
    /// A resource could not be made, for a reason other than memory.
    ResourceCreationFailed,
}

impl DeviceError {
    pub open spec fn spec_is_recoverable(&self) -> bool {
        !(self is Lost)
    }

    /// Whether the device can still be used after this error: true of
    /// everything but a lost device.
    #[verifier::when_used_as_spec(spec_is_recoverable)]
    pub fn is_recoverable(&self) -> (r: bool)
        ensures
            r == !(self is Lost),
    {
        match self {
            DeviceError::Lost => false,
            DeviceError::OutOfMemory => true,
            DeviceError::ResourceCreationFailed => true,
        }
    }
}

/// What can go wrong when a shader module is made.
#[derive(Clone, Debug, PartialEq, Eq)]
pub enum ShaderError {
    /// The shader did not compile; the text is the diagnostic.
    Compilation(String),
    /// The device failed.
    Device(DeviceError),
}

impl From<DeviceError> for ShaderError {
    fn from(error: DeviceError) -> (r: ShaderError) {
        ShaderError::Device(error)
    }
}

impl FromSpecImpl<DeviceError> for ShaderError {
    open spec fn obeys_from_spec() -> bool {
        true
    }

    open spec fn from_spec(error: DeviceError) -> ShaderError {
        ShaderError::Device(error)
    }
}

/// What can go wrong when a pipeline is made.
#[derive(Clone, Debug, PartialEq, Eq)]
pub enum PipelineError {
    /// The stages do not link; the text is the diagnostic.
    Linkage(ShaderStages, String),
    /// The entry point named for the stage does not exist or does not fit.
    EntryPoint(ShaderStage),
    /// The device failed.
    Device(DeviceError),
}

impl From<DeviceError> for PipelineError {
    fn from(error: DeviceError) -> (r: PipelineError) {
        PipelineError::Device(error)
    }
}

impl FromSpecImpl<DeviceError> for PipelineError {
    open spec fn obeys_from_spec() -> bool {
        true
    }

    open spec fn from_spec(error: DeviceError) -> PipelineError {
        PipelineError::Device(error)
    }
}

/// What can go wrong with a surface.
#[derive(Clone, Copy, Debug, PartialEq, Eq)]
pub enum SurfaceError {
    /// The surface is lost.
    Lost,
    /// The surface no longer fits its configuration; configuring it again
    /// recovers it.
    Outdated,
    /// The device failed.
    Device(DeviceError),
    /// Anything else, as text.
    Other(&'static str),
}

impl SurfaceError {
    pub open spec fn spec_is_recoverable(&self) -> bool {
        match *self {
            SurfaceError::Outdated => true,
            SurfaceError::Device(e) => e.spec_is_recoverable(),
            SurfaceError::Lost => false,
            SurfaceError::Other(_) => false,
        }
    }

    /// Whether the surface can be brought back by configuring it again, or,
    /// where the device failed, whether the device can still be used.
    #[verifier::when_used_as_spec(spec_is_recoverable)]
    pub fn is_recoverable(&self) -> (r: bool)
        ensures
            r == self.spec_is_recoverable(),
    {
        match self {
            SurfaceError::Outdated => true,
            SurfaceError::Device(e) => e.is_recoverable(),
            SurfaceError::Lost => false,
            SurfaceError::Other(_) => false,
        }
    }
}

impl From<DeviceError> for SurfaceError {
    fn from(error: DeviceError) -> (r: SurfaceError) {
        SurfaceError::Device(error)
    }
}

impl FromSpecImpl<DeviceError> for SurfaceError {
    open spec fn obeys_from_spec() -> bool {
        true
    }

    open spec fn from_spec(error: DeviceError) -> SurfaceError {
        SurfaceError::Device(error)
    }
}

/// Why an instance or a surface could not be made. The causes differ too much
/// from one platform to the next for a list of variants, so this is text: a
/// message, and the text of the underlying cause where there is one.
#[derive(Clone, Debug, PartialEq, Eq)]
pub struct InstanceError {
    message: String,
    source: Option<String>,
}

impl InstanceError {
    pub closed spec fn message_text(&self) -> Seq<char> {
        self.message@
    }

    pub closed spec fn source_text(&self) -> Option<Seq<char>> {
        match self.source {
            Some(s) => Some(s@),
            None => None,
        }
    }

    /// An error with a message and no underlying cause.
    pub fn new(message: String) -> (r: InstanceError)
        ensures
            r.message_text() == message@,
            r.source_text() is None,
    {
        InstanceError { message, source: None }
    }

    /// An error with a message and the text of its underlying cause.
    pub fn with_source(message: String, source: String) -> (r: InstanceError)
        ensures
            r.message_text() == message@,
            r.source_text() == Some(source@),
    {
        InstanceError { message, source: Some(source) }
    }

    /// The message.
    pub fn message(&self) -> (r: &String)
        ensures
            r@ == self.message_text(),
    {
        &self.message
    }

    /// The text of the underlying cause, if there is one.
    pub fn source(&self) -> (r: Option<&String>)
        ensures
            r is Some == self.source_text() is Some,
            r matches Some(s) ==> self.source_text() == Some(s@),
    {
        self.source.as_ref()
    }
}

} // verus!
