//! The errors of the directory stream.

use vstd::prelude::*;

verus! {

/// Why a directory could not be opened, read or looked up.
#[derive(Debug, Clone, Copy, PartialEq, Eq, Structural)]
pub enum FsError {
    /// The path holds a NUL byte and has no native form.
    InvalidPath,
    /// A platform call failed; this is the platform's error number as it stood
    /// after the call.
    OsError(i32),
}

impl FsError {
    /// The platform's error number, where the platform gave one.
    pub fn raw_os_error(&self) -> (code: Option<i32>)
        ensures
            code == match *self {
                FsError::InvalidPath => None::<i32>,
                FsError::OsError(errno) => Some(errno),
            },
    {
        match self {
            FsError::InvalidPath => None,
            FsError::OsError(errno) => Some(*errno),
        }
    }
}

/// What a platform call that returned `ret` amounts to, `errno` being the
/// platform's error number after it.
pub open spec fn checked(ret: i32, errno: i32) -> Result<i32, FsError> {
    if ret == -1 {
        Err(FsError::OsError(errno))
    } else {
        Ok(ret)
    }
}

/// Turns what a platform call returned into a result: `-1` is the failure that
/// `errno` names, anything else is the value of a call that went well.
pub fn cvt(ret: i32, errno: i32) -> (r: Result<i32, FsError>)
    ensures
        r == checked(ret, errno),
{
    if ret == -1 {
        Err(FsError::OsError(errno))
    } else {
        Ok(ret)
    }
}

} // verus!
