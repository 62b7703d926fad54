use crate::error::StoreFailure;
use mongodb::error::{ErrorKind, WriteFailure};
use vstd::prelude::*;

verus! {

/// An error of the MongoDB driver. Verified code carries it and reads it only
/// through the three functions below.
#[verifier::external_type_specification]
#[verifier::external_body]
pub struct ExDriverError(mongodb::error::Error);

/// The code of the write error that `error` reports: the `code` of the
/// `WriteError` where its kind is `ErrorKind::Write(WriteFailure::WriteError(..))`,
/// `None` for every other kind.
pub uninterp spec fn driver_write_code(error: mongodb::error::Error) -> Option<i32>;

/// The text that user code wrapped into `error` with `Error::custom`, if it
/// wrapped a `String`.
pub uninterp spec fn driver_attached_text(error: mongodb::error::Error) -> Option<Seq<char>>;

/// Reads the `kind` of a `mongodb::error::Error`: the `code` of the write
/// error where the kind is `ErrorKind::Write(WriteFailure::WriteError(..))`,
/// `None` for every other kind. The contract gives that reading its name.
#[verifier::external_body]
fn write_error_code(error: &mongodb::error::Error) -> (code: Option<i32>)
    ensures
        code == driver_write_code(*error),
{
    match error.kind.as_ref() {
        ErrorKind::Write(WriteFailure::WriteError(write_error)) => Some(write_error.code),
        _ => None,
    }
}

/// Calls `mongodb::error::Error::get_custom::<String>`: a copy of the text
/// that user code wrapped with `Error::custom`, if the error holds one.
/// The contract gives that text its name.
#[verifier::external_body]
fn attached_text(error: &mongodb::error::Error) -> (text: Option<String>)
    ensures
        text.deep_view() == driver_attached_text(*error),
{
    error.get_custom::<String>().cloned()
}

/// Formats the `kind` of a `mongodb::error::Error` with its `Display` impl.
/// Nothing is claimed of the text: some kinds print a hash map, in an order
/// that is not fixed.
#[verifier::external_body]
fn kind_description(error: &mongodb::error::Error) -> String {
    error.kind.to_string()
}

impl StoreFailure {
    /// Reads a driver error into plain values: the write-error code if it
    /// has one, and as its reason the text attached to it or else the
    /// description of its kind (see [`StoreFailure::new`]).
    pub fn from_driver(error: &mongodb::error::Error) -> (failure: StoreFailure)
        ensures
            failure@.code == driver_write_code(*error),
            driver_attached_text(*error) matches Some(text) ==> failure@.reason == text,
    {
        let code = write_error_code(error);
        let attached = attached_text(error);
        let description = kind_description(error);
        StoreFailure::new(code, attached, description)
    }
}

} // verus!
