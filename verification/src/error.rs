//! The errors of the bridge, and how a native error code becomes one.
use vstd::prelude::*;
use crate::native::NO_ERROR;

verus! {

/// What can go wrong between a caller and the native subsystem.
#[derive(Clone, Copy, PartialEq, Eq, Structural, Hash, Debug)]
pub enum Error {
    /// The native layer refused a call at the time it was made.  Carries the
    /// native error code.
    NativeRejection(i32),
    /// The native layer reported an error for one reply.  Carries the native
    /// error code.  The stream that delivers it goes on.
    ReplyError(i32),
    /// A reply broke the native layer's own rules: its name is missing, not
    /// terminated where it should be or not UTF-8, or its data buffer does
    /// not fit the length given with it.
    DecodingError,
    /// The consumer was gone before the reply arrived.
    ChannelClosed,
    /// A request cannot be written down for the native layer.
    InvalidInput,
}

impl Error {
    /// The native error code that the error carries, if it carries one.
    pub open spec fn native_code(self) -> Option<i32> {
        match self {
            Error::NativeRejection(code) => Some(code),
            Error::ReplyError(code) => Some(code),
            _ => None,
        }
    }

    /// The native error code that the error carries, if it carries one.
    pub fn code(&self) -> (r: Option<i32>)
        ensures
            r == self.native_code(),
    {
        match self {
            Error::NativeRejection(code) => Some(*code),
            Error::ReplyError(code) => Some(*code),
            _ => None,
        }
    }

    /// Reads the code that a native call returned: success, or a rejection
    /// that carries the code.
    pub fn from_call(code: i32) -> (r: Result<(), Error>)
        ensures
            r == (if code == NO_ERROR {
                Ok::<(), Error>(())
            } else {
                Err::<(), Error>(Error::NativeRejection(code))
            }),
    {
        if code == NO_ERROR {
            Ok(())
        } else {
            Err(Error::NativeRejection(code))
        }
    }

    /// Reads the code that came with a reply: success, or a reply error that
    /// carries the code.
    pub fn from_reply(code: i32) -> (r: Result<(), Error>)
        ensures
            r == (if code == NO_ERROR {
                Ok::<(), Error>(())
            } else {
                Err::<(), Error>(Error::ReplyError(code))
            }),
    {
        if code == NO_ERROR {
            Ok(())
        } else {
            Err(Error::ReplyError(code))
        }
    }
}

} // verus!
