//! The `TerminalReader` struct.
use crate::config::{
    detect_read_config, input_terminal_of, line_by_line_of, read_events, read_result, since,
    ReadConfig,
};
use crate::probe::{HandleProbe, ProbeEvent, Side};
use crate::stream;
use crate::system::{grip_of, SystemProbe};
use crate::terminal::{ReadTerminal, Terminal};
use io_extras::grip::AsGrip;
use io_extras::os::rustix::{AsRawFd, RawFd};
use rustix::fd::{AsFd, BorrowedFd};
use std::io::{IoSliceMut, Read};
use vstd::prelude::*;

verus! {

/// A wrapper around a `Read` which adds minimal terminal support.
#[derive(Debug)]
pub struct TerminalReader<Inner> {
    inner: Inner,
    read_config: Option<ReadConfig>,
}

impl<Inner> TerminalReader<Inner> {
    /// The wrapped stream.
    pub closed spec fn inner(&self) -> Inner {
        self.inner
    }

    /// The configuration detected when the reader was made.
    pub closed spec fn config(&self) -> Option<ReadConfig> {
        self.read_config
    }

    /// Wrap a `TerminalReader` around the given stream, autodetecting
    /// terminal properties using its `AsGrip` implementation.
    pub fn with_handle(inner: Inner) -> (r: Self) where Inner: AsGrip
        ensures
            r.inner() == inner,
            exists|t: Seq<ProbeEvent>| read_events(Side::Read, t) && r.config() == read_result(t),
    {
        let ghost mut t: Seq<ProbeEvent> = Seq::empty();
        let read_config = {
            let mut probe = SystemProbe::for_grip(grip_of(&inner), None);
            let ghost before = probe.events();
            let c = detect_read_config(&mut probe, Side::Read);
            proof {
                t = since(before, probe.events());
            }
            c
        };
        let r = TerminalReader { inner, read_config };
        assert(read_events(Side::Read, t) && r.config() == read_result(t));
        r
    }

    /// Wrap a `TerminalReader` around the given stream, taking its terminal
    /// properties from the answers of `probe` about its read side.
    pub fn with_probe<P: HandleProbe>(inner: Inner, probe: &mut P) -> (r: Self)
        ensures
            r.inner() == inner,
            old(probe).events().is_prefix_of(final(probe).events()),
            read_events(Side::Read, since(old(probe).events(), final(probe).events())),
            r.config() == read_result(since(old(probe).events(), final(probe).events())),
    {
        let read_config = detect_read_config(probe, Side::Read);
        TerminalReader { inner, read_config }
    }

    /// Wrap a `TerminalReader` around the given stream, using
    /// conservative terminal properties.
    pub fn generic(inner: Inner) -> (r: Self)
        ensures
            r.inner() == inner,
            r.config() is None,
    {
        TerminalReader { inner, read_config: None }
    }

    /// Consume `self` and return the inner stream.
    pub fn into_inner(self) -> (r: Inner)
        ensures
            r == self.inner(),
    {
        self.inner
    }
}

impl<Inner: AsRawFd> AsRawFd for TerminalReader<Inner> {
    /// Relies on the inner stream's `AsRawFd::as_raw_fd`.
    #[verifier::external_body]
    fn as_raw_fd(&self) -> RawFd {
        self.inner.as_raw_fd()
    }
}

impl<Inner: AsFd> AsFd for TerminalReader<Inner> {
    /// Relies on the inner stream's `AsFd::as_fd`.
    #[verifier::external_body]
    fn as_fd(&self) -> BorrowedFd<'_> {
        self.inner.as_fd()
    }
}

impl<Inner> Terminal for TerminalReader<Inner> {}

impl<Inner> ReadTerminal for TerminalReader<Inner> {
    open spec fn input_terminal(&self) -> bool {
        input_terminal_of(self.config())
    }

    open spec fn line_by_line(&self) -> bool {
        line_by_line_of(self.config())
    }

    fn is_line_by_line(&self) -> (r: bool) {
        match &self.read_config {
            Some(c) => c.line_by_line,
            None => false,
        }
    }

    fn is_input_terminal(&self) -> (r: bool) {
        self.read_config.is_some()
    }
}

impl<Inner: Read> Read for TerminalReader<Inner> {
    fn read(&mut self, buf: &mut [u8]) -> (r: std::io::Result<usize>)
        ensures
            final(self).config() == old(self).config(),
    {
        stream::read(&mut self.inner, buf)
    }

    fn read_vectored(&mut self, bufs: &mut [IoSliceMut<'_>]) -> (r: std::io::Result<usize>)
        ensures
            final(self).config() == old(self).config(),
    {
        stream::read_vectored(&mut self.inner, bufs)
    }

    fn read_to_end(&mut self, buf: &mut Vec<u8>) -> (r: std::io::Result<usize>)
        ensures
            final(self).config() == old(self).config(),
    {
        stream::read_to_end(&mut self.inner, buf)
    }

    fn read_to_string(&mut self, buf: &mut String) -> (r: std::io::Result<usize>)
        ensures
            final(self).config() == old(self).config(),
    {
        stream::read_to_string(&mut self.inner, buf)
    }

    fn read_exact(&mut self, buf: &mut [u8]) -> (r: std::io::Result<()>)
        ensures
            final(self).config() == old(self).config(),
    {
        stream::read_exact(&mut self.inner, buf)
    }
}

} // verus!
