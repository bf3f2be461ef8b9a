//! Formatting: a wrapper whose value has no alignment requirement prints
//! as that value does, under both formatting traits.

use crate::align::Unaligned;
use crate::unalign::Unalign;
use core::fmt::{Debug, Display};
use vstd::prelude::*;

verus! {

/// `core::fmt::Formatter`, the sink that the formatting traits write to.
/// Nothing is known of its state.
#[verifier::external_type_specification]
#[verifier::external_body]
pub struct ExFormatter<'a>(core::fmt::Formatter<'a>);

/// `core::fmt::Error`, the error that a formatter reports.
#[verifier::external_type_specification]
#[verifier::external_body]
pub struct ExFmtError(core::fmt::Error);

impl<T: Unaligned + Debug> Debug for Unalign<T> {
    /// Calls `core::fmt::Debug::fmt` on the wrapped value with the caller's
    /// formatter, and writes nothing else. No claim is made about what was
    /// written or whether it succeeded.
    #[verifier::external_body]
    fn fmt(&self, f: &mut core::fmt::Formatter<'_>) -> (r: Result<(), core::fmt::Error>) {
        Debug::fmt(&self.val, f)
    }
}

impl<T: Unaligned + Display> Display for Unalign<T> {
    /// Calls `core::fmt::Display::fmt` on the wrapped value with the
    /// caller's formatter, and writes nothing else. No claim is made about
    /// what was written or whether it succeeded.
    #[verifier::external_body]
    fn fmt(&self, f: &mut core::fmt::Formatter<'_>) -> (r: Result<(), core::fmt::Error>) {
        Display::fmt(&self.val, f)
    }
}

} // verus!
