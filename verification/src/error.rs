use vstd::prelude::*;

verus! {

/// The crate's uniform error type.
///
/// Two kinds of failure reach callers:
///
/// - `Io`: a host-OS window operation failed (window creation, querying the
///   host window's rectangle). It carries the OS's last-error code.
/// - `Rt`: the native runtime layer failed (control creation, URI parsing,
///   navigation, event registration). It carries the runtime's error code.
///
/// The embedding layer that performs the platform calls maps their failures
/// into these variants before handing them to, or receiving them from, the
/// lifecycle manager.
#[derive(Clone, Copy, PartialEq, Eq, Debug)]
pub enum Error {
    /// Host-OS error, with the OS's last-error code.
    Io(i32),
    /// Native-runtime error, with the runtime's error code.
    Rt(i32),
}

impl Error {
    /// The raw error code, whichever layer produced it.
    pub fn code(&self) -> (c: i32)
        ensures
            self matches Error::Io(k) ==> c == k,
            self matches Error::Rt(k) ==> c == k,
    {
        match self {
            Error::Io(c) => *c,
            Error::Rt(c) => *c,
        }
    }

    /// True for host-OS errors, false for runtime errors.
    pub fn is_os_error(&self) -> (b: bool)
        ensures
            b == (self is Io),
    {
        match self {
            Error::Io(_) => true,
            Error::Rt(_) => false,
        }
    }
}

} // verus!
