use vstd::prelude::*;

verus! {

/// Error codes returned by the file system layer.
#[derive(Clone, Copy, PartialEq, Eq, Structural, Debug)]
pub enum SystemError {
    /// Operation not permitted.
    EPERM,
    /// Bad file descriptor.
    EBADF,
    /// Invalid argument.
    EINVAL,
    /// Too many open files.
    EMFILE,
    /// Illegal seek.
    ESPIPE,
    /// Value too large for the defined data type.
    EOVERFLOW,
    /// No buffer space available.
    ENOBUFS,
    /// Function not implemented.
    ENOSYS,
    /// Advertise error.
    EADV,
}

} // verus!
