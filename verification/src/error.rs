//! The ways in which a transaction can fail.

use vstd::prelude::*;

verus! {

/// How a transaction can fail. Every operation of the drivers either
/// succeeds or ends in exactly one of these.
#[derive(Clone, Copy, Hash, Debug, PartialEq, Eq, PartialOrd, Ord)]
pub enum Error<E> {
    /// A word arrived intact but holds a value that the command does not
    /// define.
    InvalidResponse,
    /// The checksum byte of a word does not match its data bytes.
    InvalidCrc,
    /// The device reported through a sentinel value that the command failed.
    CommandFailed,
    /// The bus reported a failure of its own.
    Transport(E),
}

impl<E> From<E> for Error<E> {
    /// Wraps an error of the transport.
    fn from(e: E) -> (r: Self) {
        Error::Transport(e)
    }
}

impl<E> vstd::std_specs::convert::FromSpecImpl<E> for Error<E> {
    open spec fn obeys_from_spec() -> bool {
        true
    }

    open spec fn from_spec(e: E) -> Self {
        Error::Transport(e)
    }
}

} // verus!
