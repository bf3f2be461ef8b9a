//! Memory-layout primitives for zero-copy codecs, in safe code.
//!
//! A codec that reads typed values straight out of a byte buffer has to cope
//! with storage that is neither known to be initialized nor known to be
//! aligned. This crate models both concerns with plain values, so that every
//! rule about them is a contract that the verifier checks.
//!
//! * [`maybe_uninit`]: storage shaped like a `T` that may not hold a `T` yet,
//!   and the mapping from a type to such storage.
//! * [`unalign`]: a value together with the byte address of its image, with
//!   typed access only where that address permits it.
//! * [`align`]: the alignment test that the wrapper consumes.
//! * [`delegate`]: equality, ordering and hashing of wrappers, handed on to
//!   the values.
//! * [`fmt`]: how wrappers print.

pub mod align;
pub mod delegate;
pub mod fmt;
pub mod maybe_uninit;
pub mod unalign;
