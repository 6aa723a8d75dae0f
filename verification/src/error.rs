//! The one error type of the bootstrap sequence.

use vstd::prelude::*;

verus! {

/// Why the bootstrap stopped. Every failure is final: nothing here retries.
#[derive(Debug, PartialEq, Eq)]
pub enum UrnError {
    /// The driver library could not be found, or lacks its entry symbols.
    /// Carries what the loader said.
    DriverLoadError(String),
    /// Validation is enabled and the driver reports no layer at all.
    NoLayersAvailable,
    /// The named required layer is not among the layers the driver reports.
    LayerNotFound(String),
    /// A driver call other than instance creation failed with this native code.
    AshError(i32),
    /// The driver rejected the creation request with this native code.
    InstanceCreationError(i32),
    /// The name that is carried holds a NUL byte and so has no native string
    /// form.
    StringConversionError(String),
}

/// What an error is, with each text as a sequence of characters.
pub enum UrnErrorView {
    DriverLoadError(Seq<char>),
    NoLayersAvailable,
    LayerNotFound(Seq<char>),
    AshError(i32),
    InstanceCreationError(i32),
    StringConversionError(Seq<char>),
}

impl View for UrnError {
    type V = UrnErrorView;

    open spec fn view(&self) -> UrnErrorView {
        match self {
            UrnError::DriverLoadError(message) => UrnErrorView::DriverLoadError(message@),
            UrnError::NoLayersAvailable => UrnErrorView::NoLayersAvailable,
            UrnError::LayerNotFound(name) => UrnErrorView::LayerNotFound(name@),
            UrnError::AshError(code) => UrnErrorView::AshError(*code),
            UrnError::InstanceCreationError(code) => UrnErrorView::InstanceCreationError(*code),
            UrnError::StringConversionError(name) => UrnErrorView::StringConversionError(name@),
        }
    }
}

/// The view of a result whose success carries nothing.
pub open spec fn outcome_view(r: Result<(), UrnError>) -> Result<(), UrnErrorView> {
    match r {
        Ok(()) => Ok(()),
        Err(e) => Err(e@),
    }
}

} // verus!
