//! Carrying on past an error that is only worth a warning.

use vstd::prelude::*;

verus! {

/// Turning a result whose error is only worth a warning into an option.
pub trait ResultLogExt<T> {
    /// The value if there is one; `None` for an error, which the caller reports
    /// as a warning together with `msg`.
    fn warn_and_continue(self, msg: &str) -> Option<T>;
}

impl<T, E> ResultLogExt<T> for Result<T, E> {
    fn warn_and_continue(self, msg: &str) -> (r: Option<T>)
        ensures
            r == match self {
                Ok(v) => Some(v),
                Err(_) => None::<T>,
            },
    {
        match self {
            Ok(val) => Some(val),
            Err(_) => None,
        }
    }
}

} // verus!
