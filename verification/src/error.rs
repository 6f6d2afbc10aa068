//! What can go wrong when a pixel is set.

use vstd::prelude::*;

verus! {

/// Why a pixel was not set.
#[derive(Clone, Copy, Debug, PartialEq, Eq)]
pub enum Error<I2cError> {
    /// The bus reported a failure. The driver hands it on as it came.
    I2cError(I2cError),
    /// A coordinate lies outside the grid. It carries that coordinate.
    InvalidLocation(u8),
}

impl<E> From<E> for Error<E> {
    fn from(error: E) -> (wrapped: Self) {
        Error::I2cError(error)
    }
}

impl<E> vstd::std_specs::convert::FromSpecImpl<E> for Error<E> {
    open spec fn obeys_from_spec() -> bool {
        true
    }

    open spec fn from_spec(error: E) -> Self {
        Error::I2cError(error)
    }
}

} // verus!
