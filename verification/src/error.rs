//! The error taxonomy of the resource compiler. Every failure carries enough
//! detail (tag name, field name, size numbers) to diagnose a malformed scene
//! description.

use vstd::prelude::*;

verus! {

/// Mathematical model of a compile error.
#[verifier::ext_equal]
pub enum CompileErrorV {
    UnrecognizedType(Seq<char>),
    MissingField(Seq<char>),
    WrongFieldType { field: Seq<char>, expected: Seq<char> },
    MalformedNestedValue,
    AssetIoError { path: Seq<char>, cause: Seq<char> },
    AssetDecodeError { path: Seq<char>, cause: Seq<char> },
    SizeMismatch { expected: int, actual: int },
}

/// A failure of descriptor compilation or asset resolution.
///
/// `SizeMismatch` carries the exact expected and actual element counts; they
/// are kept in 128 bits because the expected count is a product of two
/// 32-bit dimensions and a channel count, which does not fit in 64 bits in
/// the worst case.
#[derive(Debug)]
pub enum CompileError {
    UnrecognizedType(String),
    MissingField(String),
    WrongFieldType { field: String, expected: String },
    MalformedNestedValue,
    AssetIoError { path: String, cause: String },
    AssetDecodeError { path: String, cause: String },
    SizeMismatch { expected: u128, actual: u128 },
}

impl View for CompileError {
    type V = CompileErrorV;

    open spec fn view(&self) -> CompileErrorV {
        match self {
            CompileError::UnrecognizedType(t) => CompileErrorV::UnrecognizedType(t@),
            CompileError::MissingField(f) => CompileErrorV::MissingField(f@),
            CompileError::WrongFieldType { field, expected } => CompileErrorV::WrongFieldType {
                field: field@,
                expected: expected@,
            },
            CompileError::MalformedNestedValue => CompileErrorV::MalformedNestedValue,
            CompileError::AssetIoError { path, cause } => CompileErrorV::AssetIoError {
                path: path@,
                cause: cause@,
            },
            CompileError::AssetDecodeError { path, cause } => CompileErrorV::AssetDecodeError {
                path: path@,
                cause: cause@,
            },
            CompileError::SizeMismatch { expected, actual } => CompileErrorV::SizeMismatch {
                expected: *expected as int,
                actual: *actual as int,
            },
        }
    }
}

/// The diagnostic name of an error's kind.
pub open spec fn kind_name_of(e: CompileErrorV) -> Seq<char> {
    match e {
        CompileErrorV::UnrecognizedType(_) => "unrecognized type"@,
        CompileErrorV::MissingField(_) => "missing field"@,
        CompileErrorV::WrongFieldType { .. } => "wrong field type"@,
        CompileErrorV::MalformedNestedValue => "malformed nested value"@,
        CompileErrorV::AssetIoError { .. } => "asset io error"@,
        CompileErrorV::AssetDecodeError { .. } => "asset decode error"@,
        CompileErrorV::SizeMismatch { .. } => "size mismatch"@,
    }
}

impl CompileError {
    /// A diagnostic rendering of the error kind, for hosts that report
    /// failures to a user.
    pub fn kind_name(&self) -> (r: &'static str)
        ensures
            r@ == kind_name_of(self@),
    {
        match self {
            CompileError::UnrecognizedType(_) => "unrecognized type",
            CompileError::MissingField(_) => "missing field",
            CompileError::WrongFieldType { .. } => "wrong field type",
            CompileError::MalformedNestedValue => "malformed nested value",
            CompileError::AssetIoError { .. } => "asset io error",
            CompileError::AssetDecodeError { .. } => "asset decode error",
            CompileError::SizeMismatch { .. } => "size mismatch",
        }
    }
}

} // verus!
