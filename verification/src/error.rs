//! Failure kinds of the execution engine and of the algorithm layer.

use vstd::prelude::*;

verus! {

/// A failure reported to the immediate caller. No component retries or
/// replaces a failure by a default value.
#[derive(Clone, Copy, Debug, PartialEq, Eq, Structural)]
pub enum GpuError {
    /// A descriptor was registered for a backend that does not support it.
    UnsupportedBackend,
    /// A placeholder is left in the source of a descriptor: a name that was
    /// substituted brought it in.
    ResidualPlaceholder,
    /// No usable device is present.
    DeviceNotFound,
    /// The device context could not be created or activated.
    ContextFailure,
    /// The loaded module is missing or holds no function of the given name.
    FunctionNotFound,
    /// A session was requested on a context that already has a live session.
    ContextAlreadyInUse,
    /// Base, exponent, chunk or transform dimensions do not fit together.
    DimensionMismatch,
    /// A host/device copy failed on the device side.
    TransferFailed,
    /// A kernel launch or a stream synchronization failed.
    LaunchFailed,
}

/// The four classes into which failures fall.
#[derive(Clone, Copy, Debug, PartialEq, Eq, Structural)]
pub enum ErrorClass {
    /// Unsupported backend or feature combination; fatal to the build.
    Configuration,
    /// Device, context or module trouble.
    Resource,
    /// A programming error of the caller; not recoverable at run time.
    ContractViolation,
    /// Device-side failure during a copy or a kernel execution.
    TransferOrLaunch,
}

impl GpuError {
    /// The class of this failure.
    pub open spec fn spec_class(self) -> ErrorClass {
        match self {
            GpuError::UnsupportedBackend => ErrorClass::Configuration,
            GpuError::ResidualPlaceholder => ErrorClass::Configuration,
            GpuError::DeviceNotFound => ErrorClass::Resource,
            GpuError::ContextFailure => ErrorClass::Resource,
            GpuError::FunctionNotFound => ErrorClass::Resource,
            GpuError::ContextAlreadyInUse => ErrorClass::ContractViolation,
            GpuError::DimensionMismatch => ErrorClass::ContractViolation,
            GpuError::TransferFailed => ErrorClass::TransferOrLaunch,
            GpuError::LaunchFailed => ErrorClass::TransferOrLaunch,
        }
    }

    /// The class of this failure.
    pub fn class(&self) -> (c: ErrorClass)
        ensures
            c == self.spec_class(),
    {
        match self {
            GpuError::UnsupportedBackend => ErrorClass::Configuration,
            GpuError::ResidualPlaceholder => ErrorClass::Configuration,
            GpuError::DeviceNotFound => ErrorClass::Resource,
            GpuError::ContextFailure => ErrorClass::Resource,
            GpuError::FunctionNotFound => ErrorClass::Resource,
            GpuError::ContextAlreadyInUse => ErrorClass::ContractViolation,
            GpuError::DimensionMismatch => ErrorClass::ContractViolation,
            GpuError::TransferFailed => ErrorClass::TransferOrLaunch,
            GpuError::LaunchFailed => ErrorClass::TransferOrLaunch,
        }
    }
}

} // verus!
