//! The `NeverTerminalWriter` struct.
use crate::stream;
use crate::terminal::{Terminal, TerminalColorSupport, WriteTerminal};
use io_extras::os::rustix::{AsRawFd, RawFd};
use std::io::{IoSlice, Write};
use vstd::prelude::*;

verus! {

/// A wrapper around a `Write` which implements `WriteTerminal` but isn't ever
/// a terminal.
#[derive(Debug)]
pub struct NeverTerminalWriter<Inner> {
    inner: Inner,
}

impl<Inner> NeverTerminalWriter<Inner> {
    /// The wrapped stream.
    pub closed spec fn inner(&self) -> Inner {
        self.inner
    }

    /// Wrap a `NeverTerminalWriter` around the given stream.
    pub fn new(inner: Inner) -> (r: Self)
        ensures
            r.inner() == inner,
    {
        NeverTerminalWriter { inner }
    }

    /// Consume `self` and return the inner stream.
    pub fn into_inner(self) -> (r: Inner)
        ensures
            r == self.inner(),
    {
        self.inner
    }
}

impl<Inner: AsRawFd> AsRawFd for NeverTerminalWriter<Inner> {
    /// Relies on the inner stream's `AsRawFd::as_raw_fd`.
    #[verifier::external_body]
    fn as_raw_fd(&self) -> RawFd {
        self.inner.as_raw_fd()
    }
}

impl<Inner> Terminal for NeverTerminalWriter<Inner> {}

impl<Inner> WriteTerminal for NeverTerminalWriter<Inner> {
    open spec fn output_terminal(&self) -> bool {
        false
    }

    open spec fn colors(&self) -> TerminalColorSupport {
        TerminalColorSupport::Monochrome
    }

    open spec fn prefers_color(&self) -> bool {
        false
    }

    fn color_support(&self) -> (r: TerminalColorSupport) {
        TerminalColorSupport::default()
    }

    fn color_preference(&self) -> (r: bool) {
        false
    }

    fn is_output_terminal(&self) -> (r: bool) {
        false
    }
}

impl<Inner: Write> Write for NeverTerminalWriter<Inner> {
    fn write(&mut self, buf: &[u8]) -> (r: std::io::Result<usize>) {
        stream::write(&mut self.inner, buf)
    }

    fn flush(&mut self) -> (r: std::io::Result<()>) {
        stream::flush(&mut self.inner)
    }

    fn write_vectored(&mut self, bufs: &[IoSlice<'_>]) -> (r: std::io::Result<usize>) {
        stream::write_vectored(&mut self.inner, bufs)
    }

    fn write_all(&mut self, buf: &[u8]) -> (r: std::io::Result<()>) {
        stream::write_all(&mut self.inner, buf)
    }
}

} // verus!
