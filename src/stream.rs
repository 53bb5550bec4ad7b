//! The calls that hand I/O on to a wrapped stream, unchanged.
use std::io::{IoSlice, IoSliceMut, Read, Write};
use vstd::prelude::*;

verus! {

#[verifier::external_type_specification]
#[verifier::external_body]
pub struct ExIoError(std::io::Error);

#[verifier::external_type_specification]
#[verifier::external_body]
pub struct ExIoSlice<'a>(IoSlice<'a>);

#[verifier::external_type_specification]
#[verifier::external_body]
pub struct ExIoSliceMut<'a>(IoSliceMut<'a>);

/// Relies on `Read::read` of the wrapped stream.
#[verifier::external_body]
pub(crate) fn read<R: Read>(r: &mut R, buf: &mut [u8]) -> std::io::Result<usize> {
    r.read(buf)
}

/// Relies on `Read::read_vectored` of the wrapped stream.
#[verifier::external_body]
pub(crate) fn read_vectored<R: Read>(r: &mut R, bufs: &mut [IoSliceMut<'_>]) -> std::io::Result<
    usize,
> {
    r.read_vectored(bufs)
}

/// Relies on `Read::read_to_end` of the wrapped stream.
#[verifier::external_body]
pub(crate) fn read_to_end<R: Read>(r: &mut R, buf: &mut Vec<u8>) -> std::io::Result<usize> {
    r.read_to_end(buf)
}

/// Relies on `Read::read_to_string` of the wrapped stream.
#[verifier::external_body]
pub(crate) fn read_to_string<R: Read>(r: &mut R, buf: &mut String) -> std::io::Result<usize> {
    r.read_to_string(buf)
}

/// Relies on `Read::read_exact` of the wrapped stream.
#[verifier::external_body]
pub(crate) fn read_exact<R: Read>(r: &mut R, buf: &mut [u8]) -> std::io::Result<()> {
    r.read_exact(buf)
}

/// Relies on `Write::write` of the wrapped stream.
#[verifier::external_body]
pub(crate) fn write<W: Write>(w: &mut W, buf: &[u8]) -> std::io::Result<usize> {
    w.write(buf)
}

/// Relies on `Write::flush` of the wrapped stream.
#[verifier::external_body]
pub(crate) fn flush<W: Write>(w: &mut W) -> std::io::Result<()> {
    w.flush()
}

/// Relies on `Write::write_vectored` of the wrapped stream.
#[verifier::external_body]
pub(crate) fn write_vectored<W: Write>(w: &mut W, bufs: &[IoSlice<'_>]) -> std::io::Result<usize> {
    w.write_vectored(bufs)
}

/// Relies on `Write::write_all` of the wrapped stream.
#[verifier::external_body]
pub(crate) fn write_all<W: Write>(w: &mut W, buf: &[u8]) -> std::io::Result<()> {
    w.write_all(buf)
}

/// Whether an I/O error is of the kind `UnexpectedEof`; the kind depends on
/// the error alone.
pub uninterp spec fn unexpected_eof_of(e: std::io::Error) -> bool;

/// The length of the buffer behind an `IoSliceMut`.
pub uninterp spec fn slice_len_of(b: IoSliceMut<'_>) -> usize;

/// Relies on `io::Error::kind`: whether the error is an unexpected end of
/// file.
#[verifier::external_body]
pub(crate) fn is_unexpected_eof(e: &std::io::Error) -> (r: bool)
    ensures
        r == unexpected_eof_of(*e),
{
    e.kind() == std::io::ErrorKind::UnexpectedEof
}

/// Relies on the `Deref` of `IoSliceMut` to a byte slice: its length.
#[verifier::external_body]
pub(crate) fn io_slice_len(b: &IoSliceMut<'_>) -> (r: usize)
    ensures
        r == slice_len_of(*b),
{
    b.len()
}

} // verus!
