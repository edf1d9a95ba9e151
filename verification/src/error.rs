//! The return-code translator: every trap returns one signed status word, and
//! this module is the only place that interprets it. Non-negative words are
//! success payloads; strictly negative words select one of thirteen fixed
//! semantic error kinds, with any unmapped negative word preserved as
//! `Unknown`.

use vstd::prelude::*;

verus! {

/// Semantic error kinds, one-to-one with the negative trap status codes.
#[derive(Clone, Copy, PartialEq, Eq, Structural, Debug)]
pub enum Error {
    /// Generic failure condition.
    Fail,
    /// Underlying system is busy; retry.
    Busy,
    /// The state requested is already set.
    Already,
    /// The component is powered down.
    Off,
    /// Reservation required before use.
    Reserve,
    /// An invalid parameter was passed.
    Invalid,
    /// Parameter passed was too large.
    Size,
    /// Operation cancelled by a call.
    Cancel,
    /// Memory required not available.
    Nomem,
    /// Operation or command is unsupported.
    Nosupport,
    /// Device does not exist.
    Nodevice,
    /// Device is not physically installed.
    Uninstalled,
    /// Packet transmission not acknowledged.
    Noack,
    /// Any negative status code outside the fixed table, preserved verbatim.
    Unknown(isize),
}

/// The fixed translation table for strictly negative status codes.
pub open spec fn error_of_code(code: int) -> Error {
    if code == -1 {
        Error::Fail
    } else if code == -2 {
        Error::Busy
    } else if code == -3 {
        Error::Already
    } else if code == -4 {
        Error::Off
    } else if code == -5 {
        Error::Reserve
    } else if code == -6 {
        Error::Invalid
    } else if code == -7 {
        Error::Size
    } else if code == -8 {
        Error::Cancel
    } else if code == -9 {
        Error::Nomem
    } else if code == -10 {
        Error::Nosupport
    } else if code == -11 {
        Error::Nodevice
    } else if code == -12 {
        Error::Uninstalled
    } else if code == -13 {
        Error::Noack
    } else {
        Error::Unknown(code as isize)
    }
}

/// Translates a strictly negative raw status code into its semantic error.
pub fn error_from_code(code: isize) -> (e: Error)
    requires
        code < 0,
    ensures
        e == error_of_code(code as int),
{
    if code == -1 {
        Error::Fail
    } else if code == -2 {
        Error::Busy
    } else if code == -3 {
        Error::Already
    } else if code == -4 {
        Error::Off
    } else if code == -5 {
        Error::Reserve
    } else if code == -6 {
        Error::Invalid
    } else if code == -7 {
        Error::Size
    } else if code == -8 {
        Error::Cancel
    } else if code == -9 {
        Error::Nomem
    } else if code == -10 {
        Error::Nosupport
    } else if code == -11 {
        Error::Nodevice
    } else if code == -12 {
        Error::Uninstalled
    } else if code == -13 {
        Error::Noack
    } else {
        Error::Unknown(code)
    }
}

/// Translates a raw status code into a success payload or a semantic error:
/// success exactly on non-negative codes, with the code itself as payload.
/// The payload is the status word reinterpreted unsigned; every trap of this
/// library produces a 32-bit status word, for which the cast is exact, and a
/// wider code would be truncated as the contract states.
pub fn result_from_code(code: isize) -> (r: Result<u32, Error>)
    ensures
        code >= 0 ==> r == Ok::<u32, Error>(code as u32),
        code < 0 ==> r == Err::<u32, Error>(error_of_code(code as int)),
{
    if code >= 0 {
        Ok(code as u32)
    } else {
        Err(error_from_code(code))
    }
}

} // verus!
