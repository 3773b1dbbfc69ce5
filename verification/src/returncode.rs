//! Result codes exchanged between processes, the driver and the radio.

use vstd::prelude::*;

verus! {

/// The outcome of a request, as a process or the radio reports it.
///
/// The driver itself produces `SUCCESS`, `EBUSY`, `EOFF`, `ESIZE`, `ENOMEM`
/// and `ENOSUPPORT`; every other code only ever passes through it, from the
/// radio to the caller or to a scheduled callback.
#[allow(non_camel_case_types)]
#[derive(Clone, Copy, Debug, PartialEq, Eq, Structural)]
pub enum ReturnCode {
    /// The operation succeeded and carries a value.
    SuccessWithValue { value: usize },
    /// The operation succeeded.
    SUCCESS,
    /// Generic failure.
    FAIL,
    /// The underlying system is busy; retry later.
    EBUSY,
    /// The requested state is already set.
    EALREADY,
    /// The component is powered down.
    EOFF,
    /// A reservation is required before use.
    ERESERVE,
    /// An invalid parameter was passed.
    EINVAL,
    /// A parameter was too large.
    ESIZE,
    /// The operation was cancelled.
    ECANCEL,
    /// The memory that the operation needs is not available.
    ENOMEM,
    /// The operation or command is not supported.
    ENOSUPPORT,
    /// The device does not exist.
    ENODEVICE,
    /// The device is not physically installed.
    EUNINSTALLED,
    /// The packet was not acknowledged.
    ENOACK,
}

} // verus!
