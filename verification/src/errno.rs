//! Kernel error numbers.

use vstd::prelude::*;

verus! {

/// A kernel error. The ones that this crate gives itself have names.
#[derive(Clone, Copy, Debug, PartialEq, Eq, Structural)]
pub enum Errno {
    /// Try again.
    EAGAIN,
    /// Bad address.
    EFAULT,
    /// Device or resource busy.
    EBUSY,
    /// No such device.
    ENODEV,
    /// Invalid argument.
    EINVAL,
    /// Operation not supported.
    EOPNOTSUPP,
    /// Restart the system call after a signal.
    ERESTARTSYS,
    #[allow(non_camel_case_types)]
    /// The driver asks to be probed again later.
    EPROBE_DEFER,
    /// Any other error number, as the kernel gave it (negative).
    Other(i32),
}

impl Errno {
    /// The error number as the kernel passes it around: negative.
    pub open spec fn number(self) -> int {
        match self {
            Errno::EAGAIN => -11,
            Errno::EFAULT => -14,
            Errno::EBUSY => -16,
            Errno::ENODEV => -19,
            Errno::EINVAL => -22,
            Errno::EOPNOTSUPP => -95,
            Errno::ERESTARTSYS => -512,
            Errno::EPROBE_DEFER => -517,
            Errno::Other(number) => number as int,
        }
    }

    /// The error number as the kernel passes it around: negative.
    pub fn to_errno(self) -> (number: i32)
        ensures
            number == self.number(),
    {
        match self {
            Errno::EAGAIN => -11,
            Errno::EFAULT => -14,
            Errno::EBUSY => -16,
            Errno::ENODEV => -19,
            Errno::EINVAL => -22,
            Errno::EOPNOTSUPP => -95,
            Errno::ERESTARTSYS => -512,
            Errno::EPROBE_DEFER => -517,
            Errno::Other(number) => number,
        }
    }

    /// The error with this number.
    pub fn from_errno(number: i32) -> (errno: Errno)
        ensures
            errno.number() == number,
            errno is Other ==> number != -11 && number != -14 && number != -16 && number != -19
                && number != -22 && number != -95 && number != -512 && number != -517,
    {
        match number {
            -11 => Errno::EAGAIN,
            -14 => Errno::EFAULT,
            -16 => Errno::EBUSY,
            -19 => Errno::ENODEV,
            -22 => Errno::EINVAL,
            -95 => Errno::EOPNOTSUPP,
            -512 => Errno::ERESTARTSYS,
            -517 => Errno::EPROBE_DEFER,
            _ => Errno::Other(number),
        }
    }
}

/// The named errors have the numbers that the kernel gives them, and an error
/// survives being passed as its number.
pub proof fn law_error_numbers(errno: Errno, number: i32, back: Errno)
    requires
        call_ensures(Errno::to_errno, (errno,), number),
        call_ensures(Errno::from_errno, (number,), back),
    ensures
        errno == Errno::EAGAIN ==> number == -11,
        errno == Errno::EFAULT ==> number == -14,
        errno == Errno::EBUSY ==> number == -16,
        errno == Errno::ENODEV ==> number == -19,
        errno == Errno::EINVAL ==> number == -22,
        errno == Errno::EOPNOTSUPP ==> number == -95,
        errno == Errno::ERESTARTSYS ==> number == -512,
        errno == Errno::EPROBE_DEFER ==> number == -517,
        errno is Other ==> number == errno->Other_0,
        errno !is Other ==> back == errno,
        back.number() == errno.number(),
        back is Other ==> errno is Other,
{
}

} // verus!
