//! Reading what a native call gave back: its status code and the object it
//! handed out.

use vstd::prelude::*;
use crate::error::{Capability, NativeFunction, VolumeError};

verus! {

/// The error that stands for a failure status `code` of `function`: an
/// initialization failure for a function of the acquisition sequence, an
/// operation failure for one that reads or writes a level.
pub open spec fn failure(function: NativeFunction, code: i32) -> VolumeError {
    if function.is_acquisition() {
        VolumeError::InitializationFailure { function, code }
    } else {
        VolumeError::NativeOperationFailure { function, code }
    }
}

/// Turns the status code `hr` that `function` returned into a result.
///
/// A status is a failure exactly when it is negative. The error then carries
/// the function and the code as they came.
pub fn is_error(hr: i32, function: NativeFunction) -> (r: Result<(), VolumeError>)
    ensures
        r == if hr < 0 {
            Err(failure(function, hr))
        } else {
            Ok(())
        },
{
    if hr < 0 {
        if function.is_acquisition() {
            Err(VolumeError::InitializationFailure { function, code: hr })
        } else {
            Err(VolumeError::NativeOperationFailure { function, code: hr })
        }
    } else {
        Ok(())
    }
}

/// Checks that a native call handed out an object: `address` is where the
/// object lies, and 0 stands for none.
pub fn is_null(address: usize, capability: Capability) -> (r: Result<(), VolumeError>)
    ensures
        r == if address == 0 {
            Err(VolumeError::NullCapability { capability })
        } else {
            Ok(())
        },
{
    if address == 0 {
        Err(VolumeError::NullCapability { capability })
    } else {
        Ok(())
    }
}

/// A status is negative exactly when its severity bit, the topmost of its 32
/// bits, is set: the test by sign is the native test for a failure.
pub proof fn lemma_failure_is_severity_bit(hr: i32)
    ensures
        hr < 0 <==> (hr as u32) >> 31 == 1,
{
    assert(hr < 0 <==> (hr as u32) >> 31 == 1) by (bit_vector);
}

} // verus!
