//! The typed failures of expression evaluation and aggregation.
//!
//! Every evaluation step returns a `Result`; an error from a child node
//! propagates unchanged to the parent, and no error ever aborts the process.

use vstd::prelude::*;

verus! {

/// The kind of an [`Error`], with the diagnostic payloads dropped.
///
/// Contracts speak of kinds only: the description strings carried by
/// [`Error`] are diagnostics for a human reader, not semantics.
pub enum ErrorModel {
    /// An operand's physical type is outside what the operation supports.
    PrimitiveTypeNotSupported,
    /// A value fed to an aggregation has an unsupported physical type.
    PhysicalTypeNotSupported,
    /// A checked downcast was asked for a representation the value does not have.
    DowncastError,
    /// The two array operands of an elementwise operation differ in length.
    DifferentSizes,
}

/// A typed evaluation failure. The `String` payloads describe the offending
/// operands; they carry no semantic weight.
#[derive(Debug, PartialEq, Eq)]
pub enum Error {
    /// An operand's physical type is outside what the operation supports;
    /// the payload names the type that was seen.
    PrimitiveTypeNotSupported(String),
    /// A value fed to an aggregation has an unsupported physical type.
    PhysicalTypeNotSupported(String),
    /// A checked downcast was asked for a representation the value does not have.
    DowncastError,
    /// The two array operands of an elementwise operation differ in length;
    /// the payloads describe the left and the right operand.
    DifferentSizes(String, String),
}

impl View for Error {
    type V = ErrorModel;

    open spec fn view(&self) -> ErrorModel {
        match self {
            Error::PrimitiveTypeNotSupported(_) => ErrorModel::PrimitiveTypeNotSupported,
            Error::PhysicalTypeNotSupported(_) => ErrorModel::PhysicalTypeNotSupported,
            Error::DowncastError => ErrorModel::DowncastError,
            Error::DifferentSizes(_, _) => ErrorModel::DifferentSizes,
        }
    }
}

} // verus!
