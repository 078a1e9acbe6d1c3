//! The output sink: what the serial port needs of [`std::io::Write`].
//!
//! Nothing here is proved. The two functions hand their arguments to the
//! writer that the caller supplied and return what it answered.

use vstd::prelude::*;

verus! {

/// The error of [`std::io`], carried through without looking inside.
#[verifier::external_type_specification]
#[verifier::external_body]
pub struct ExIoError(std::io::Error);

/// Calls [`std::io::Write::write_all`] on `out` with the one byte `value`.
///
/// Nothing is claimed of the outcome: whether the byte is taken is up to
/// the writer.
#[verifier::external_body]
pub(crate) fn write_byte<W: std::io::Write>(out: &mut W, value: u8) -> (r: Result<
    (),
    std::io::Error,
>) {
    out.write_all(&[value])
}

/// Calls [`std::io::Write::flush`] on `out`.
///
/// Nothing is claimed of the outcome.
#[verifier::external_body]
pub(crate) fn flush<W: std::io::Write>(out: &mut W) -> (r: Result<(), std::io::Error>) {
    out.flush()
}

} // verus!
