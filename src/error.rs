use vstd::prelude::*;

verus! {

/// Why a session could not be set up or went wrong.
#[derive(Clone, Copy, Debug, PartialEq, Eq, Structural)]
pub enum Error {
    /// Reading or setting the terminal's attributes failed.
    Terminal,
    /// Installing the resize signal handler failed.
    Signal,
    /// Registering an event source failed.
    Setup,
    /// Reading or writing the terminal or a pipe failed.
    Io,
}

/// The library's result type.
pub type Result<T> = core::result::Result<T, Error>;

} // verus!
