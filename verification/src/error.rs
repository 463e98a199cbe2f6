//! Error taxonomy of the pipeline.
//!
//! Validation errors are raised at the earliest possible stage: a chart
//! variant cannot be constructed without its required channels, and an
//! assembly cannot be finalized without at least one variant. Serialization
//! errors belong to the backend.

use vstd::prelude::*;

verus! {

/// A required positional channel was absent when a chart variant was
/// constructed. Recoverable: the caller can supply the channel or abandon
/// the variant.
#[derive(Debug, Clone, PartialEq, Eq, Structural)]
pub enum DimensionError {
    /// The X position channel is required but unbound or empty.
    NoX,
    /// The Y position channel is required but unbound or empty.
    NoY,
}

impl DimensionError {
    /// A human-readable description of the missing dimension.
    pub fn message(&self) -> (r: &'static str)
        ensures
            *self is NoX ==> r@ == "Missing X dimension"@,
            *self is NoY ==> r@ == "Missing Y dimension"@,
    {
        match self {
            DimensionError::NoX => "Missing X dimension",
            DimensionError::NoY => "Missing Y dimension",
        }
    }
}

/// Finalizing an assembly failed. Recoverable: the caller can add a variant
/// or abort.
#[derive(Debug, Clone, PartialEq, Eq, Structural)]
pub enum AssemblyError {
    /// The assembly held zero chart variants; an empty chart has no defined
    /// rendering.
    EmptyAssembly,
}

impl AssemblyError {
    /// A human-readable description of the failure.
    pub fn message(&self) -> (r: &'static str)
        ensures
            r@ == "Cannot make a plot without data"@,
    {
        "Cannot make a plot without data"
    }
}

/// A backend could not serialize the variant sequence, such as a variant the
/// backend has not implemented. No partial artifact is ever produced.
#[derive(Debug, Clone, PartialEq, Eq, Structural)]
pub enum RenderError {
    /// The backend has not implemented this variant.
    Unsupported,
}

impl RenderError {
    /// A human-readable description of the failure.
    pub fn message(&self) -> (r: &'static str)
        ensures
            r@ == "Backend does not implement this chart variant"@,
    {
        "Backend does not implement this chart variant"
    }
}

} // verus!
