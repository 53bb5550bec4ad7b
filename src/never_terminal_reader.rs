//! The `NeverTerminalReader` struct.
use crate::stream;
use crate::terminal::{ReadTerminal, Terminal};
use io_extras::os::rustix::{AsRawFd, RawFd};
use rustix::fd::{AsFd, BorrowedFd};
use std::io::{IoSliceMut, Read};
use vstd::prelude::*;

verus! {

/// A wrapper around a `Read` which implements `ReadTerminal` but isn't ever
/// a terminal.
#[derive(Debug)]
pub struct NeverTerminalReader<Inner> {
    inner: Inner,
}

impl<Inner> NeverTerminalReader<Inner> {
    /// The wrapped stream.
    pub closed spec fn inner(&self) -> Inner {
        self.inner
    }

    /// Wrap a `NeverTerminalReader` around the given stream.
    pub fn new(inner: Inner) -> (r: Self)
        ensures
            r.inner() == inner,
    {
        NeverTerminalReader { inner }
    }

    /// Consume `self` and return the inner stream.
    pub fn into_inner(self) -> (r: Inner)
        ensures
            r == self.inner(),
    {
        self.inner
    }
}

impl<Inner: AsRawFd> AsRawFd for NeverTerminalReader<Inner> {
    /// Relies on the inner stream's `AsRawFd::as_raw_fd`.
    #[verifier::external_body]
    fn as_raw_fd(&self) -> RawFd {
        self.inner.as_raw_fd()
    }
}

impl<Inner: AsFd> AsFd for NeverTerminalReader<Inner> {
    /// Relies on the inner stream's `AsFd::as_fd`.
    #[verifier::external_body]
    fn as_fd(&self) -> BorrowedFd<'_> {
        self.inner.as_fd()
    }
}

impl<Inner> Terminal for NeverTerminalReader<Inner> {}

impl<Inner> ReadTerminal for NeverTerminalReader<Inner> {
    open spec fn input_terminal(&self) -> bool {
        false
    }

    open spec fn line_by_line(&self) -> bool {
        false
    }

    fn is_line_by_line(&self) -> (r: bool) {
        false
    }

    fn is_input_terminal(&self) -> (r: bool) {
        false
    }
}

impl<Inner: Read> Read for NeverTerminalReader<Inner> {
    fn read(&mut self, buf: &mut [u8]) -> (r: std::io::Result<usize>) {
        stream::read(&mut self.inner, buf)
    }

    fn read_vectored(&mut self, bufs: &mut [IoSliceMut<'_>]) -> (r: std::io::Result<usize>) {
        stream::read_vectored(&mut self.inner, bufs)
    }

    fn read_to_end(&mut self, buf: &mut Vec<u8>) -> (r: std::io::Result<usize>) {
        stream::read_to_end(&mut self.inner, buf)
    }

    fn read_to_string(&mut self, buf: &mut String) -> (r: std::io::Result<usize>) {
        stream::read_to_string(&mut self.inner, buf)
    }

    fn read_exact(&mut self, buf: &mut [u8]) -> (r: std::io::Result<()>) {
        stream::read_exact(&mut self.inner, buf)
    }
}

} // verus!
