//! The `NeverTerminalDuplexer` struct.
use crate::stream;
use crate::terminal::{DuplexTerminal, ReadTerminal, Terminal, TerminalColorSupport, WriteTerminal};
use duplex::Duplex;
use io_extras::os::rustix::{AsRawReadWriteFd, AsReadWriteFd, RawFd};
use rustix::fd::BorrowedFd;
use std::io::{IoSlice, IoSliceMut, Read, Write};
use vstd::prelude::*;

verus! {

/// A wrapper around a `Read` + `Write` which implements `DuplexTerminal`
/// but isn't ever a terminal.
#[derive(Debug)]
pub struct NeverTerminalDuplexer<Inner> {
    inner: Inner,
}

impl<Inner> NeverTerminalDuplexer<Inner> {
    /// The wrapped stream.
    pub closed spec fn inner(&self) -> Inner {
        self.inner
    }

    /// Wrap a `NeverTerminalDuplexer` around the given stream.
    pub fn new(inner: Inner) -> (r: Self)
        ensures
            r.inner() == inner,
    {
        NeverTerminalDuplexer { inner }
    }

    /// Consume `self` and return the inner stream.
    pub fn into_inner(self) -> (r: Inner)
        ensures
            r == self.inner(),
    {
        self.inner
    }
}

impl<Inner: AsRawReadWriteFd> AsRawReadWriteFd for NeverTerminalDuplexer<Inner> {
    /// Relies on the inner stream's `AsRawReadWriteFd::as_raw_read_fd`.
    #[verifier::external_body]
    fn as_raw_read_fd(&self) -> RawFd {
        self.inner.as_raw_read_fd()
    }

    /// Relies on the inner stream's `AsRawReadWriteFd::as_raw_write_fd`.
    #[verifier::external_body]
    fn as_raw_write_fd(&self) -> RawFd {
        self.inner.as_raw_write_fd()
    }
}

impl<Inner: AsReadWriteFd> AsReadWriteFd for NeverTerminalDuplexer<Inner> {
    /// Relies on the inner stream's `AsReadWriteFd::as_read_fd`.
    #[verifier::external_body]
    fn as_read_fd(&self) -> BorrowedFd<'_> {
        self.inner.as_read_fd()
    }

    /// Relies on the inner stream's `AsReadWriteFd::as_write_fd`.
    #[verifier::external_body]
    fn as_write_fd(&self) -> BorrowedFd<'_> {
        self.inner.as_write_fd()
    }
}

impl<Inner> Terminal for NeverTerminalDuplexer<Inner> {}

impl<Inner> ReadTerminal for NeverTerminalDuplexer<Inner> {
    open spec fn input_terminal(&self) -> bool {
        false
    }

    open spec fn line_by_line(&self) -> bool {
        false
    }

    fn is_line_by_line(&self) -> (r: bool) {
        false
    }

    fn is_input_terminal(&self) -> (r: bool) {
        false
    }
}

impl<Inner> WriteTerminal for NeverTerminalDuplexer<Inner> {
    open spec fn output_terminal(&self) -> bool {
        false
    }

    open spec fn colors(&self) -> TerminalColorSupport {
        TerminalColorSupport::Monochrome
    }

    open spec fn prefers_color(&self) -> bool {
        false
    }

    fn color_support(&self) -> (r: TerminalColorSupport) {
        TerminalColorSupport::default()
    }

    fn color_preference(&self) -> (r: bool) {
        false
    }

    fn is_output_terminal(&self) -> (r: bool) {
        false
    }
}

impl<Inner> DuplexTerminal for NeverTerminalDuplexer<Inner> {}

impl<Inner: Duplex> Duplex for NeverTerminalDuplexer<Inner> {}

impl<Inner: Read + Write> Read for NeverTerminalDuplexer<Inner> {
    fn read(&mut self, buf: &mut [u8]) -> (r: std::io::Result<usize>) {
        stream::read(&mut self.inner, buf)
    }

    fn read_vectored(&mut self, bufs: &mut [IoSliceMut<'_>]) -> (r: std::io::Result<usize>) {
        stream::read_vectored(&mut self.inner, bufs)
    }

    fn read_to_end(&mut self, buf: &mut Vec<u8>) -> (r: std::io::Result<usize>) {
        stream::read_to_end(&mut self.inner, buf)
    }

    fn read_to_string(&mut self, buf: &mut String) -> (r: std::io::Result<usize>) {
        stream::read_to_string(&mut self.inner, buf)
    }

    fn read_exact(&mut self, buf: &mut [u8]) -> (r: std::io::Result<()>) {
        stream::read_exact(&mut self.inner, buf)
    }
}

impl<Inner: Read + Write> Write for NeverTerminalDuplexer<Inner> {
    fn write(&mut self, buf: &[u8]) -> (r: std::io::Result<usize>) {
        stream::write(&mut self.inner, buf)
    }

    fn flush(&mut self) -> (r: std::io::Result<()>) {
        stream::flush(&mut self.inner)
    }

    fn write_vectored(&mut self, bufs: &[IoSlice<'_>]) -> (r: std::io::Result<usize>) {
        stream::write_vectored(&mut self.inner, bufs)
    }

    fn write_all(&mut self, buf: &[u8]) -> (r: std::io::Result<()>) {
        stream::write_all(&mut self.inner, buf)
    }
}

} // verus!
