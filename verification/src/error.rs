//! The error type shared by every operation of the driver.

use vstd::prelude::*;
use vstd::std_specs::convert::FromSpecImpl;
use core::convert::Infallible;
use crate::instruction::CommandError;

verus! {

/// Error types used within this crate.
///
/// `E` is the error of the transport that carries the bytes.
#[derive(Debug)]
pub enum Error<E = ()> {
    /// Communication error
    Comm(E),
    /// Pin setting error
    Pin(Infallible),
    /// Command Error
    CommandError(CommandError),
}

impl<E> From<CommandError> for Error<E> {
    fn from(err: CommandError) -> (error: Self) {
        Error::CommandError(err)
    }
}

impl<E> FromSpecImpl<CommandError> for Error<E> {
    open spec fn obeys_from_spec() -> bool {
        true
    }

    open spec fn from_spec(err: CommandError) -> Self {
        Error::CommandError(err)
    }
}

} // verus!
