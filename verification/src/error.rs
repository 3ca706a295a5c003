//! The error type of the library and the two ways a failure arises.

use vstd::prelude::*;

verus! {

/// Why an operation of the library failed.
#[derive(Clone, Copy, Debug, PartialEq, Eq)]
pub enum NxError {
    /// A native call returned this non-success code.
    InternalError(ash::vk::Result),
    /// The driver had nothing to offer where at least one value was needed.
    NoValue,
}

/// Result of an operation of the library.
pub type NxResult<T> = Result<T, NxError>;

/// Surfaces the outcome of a native call: success passes through, a native
/// code becomes [`NxError::InternalError`] carrying that code.
pub fn wrap_native<T>(outcome: Result<T, ash::vk::Result>) -> (wrapped: NxResult<T>)
    ensures
        wrapped == match outcome {
            Ok(value) => Ok::<T, NxError>(value),
            Err(code) => Err::<T, NxError>(NxError::InternalError(code)),
        },
{
    match outcome {
        Ok(value) => Ok(value),
        Err(code) => Err(NxError::InternalError(code)),
    }
}

/// Accepts a list the driver reported only if it holds at least one item;
/// an empty list is the "no value" failure.
pub fn non_empty<T>(items: Vec<T>) -> (checked: NxResult<Vec<T>>)
    ensures
        checked == if items@.len() > 0 {
            Ok::<Vec<T>, NxError>(items)
        } else {
            Err::<Vec<T>, NxError>(NxError::NoValue)
        },
{
    if !items.is_empty() {
        Ok(items)
    } else {
        Err(NxError::NoValue)
    }
}

} // verus!
