//! The `TerminalDuplexer` struct.
use crate::config::{
    color_preference_of, color_support_of, color_tier, colors_answered, detect_read_write_config, input_terminal_of,
    lemma_read_write_errors_are_unrecognized_counts, line_by_line_of, output_terminal_of, read_write_events,
    read_write_result, since, Environment, ReadConfig, UnrecognizedColorCount, WriteConfig,
};
use crate::probe::{HandleProbe, ProbeEvent, RawGrip, Side};
use crate::stream::{self, slice_len_of, unexpected_eof_of};
use crate::system::{read_grip_of, write_grip_of, SystemProbe};
use crate::terminal::{DuplexTerminal, ReadTerminal, Terminal, TerminalColorSupport, WriteTerminal};
use duplex::Duplex;
use io_extras::grip::AsReadWriteGrip;
use io_extras::os::rustix::{AsRawReadWriteFd, AsReadWriteFd, RawFd};
use rustix::fd::BorrowedFd;
use std::io::{IoSlice, IoSliceMut, Read, Write};
use vstd::prelude::*;

verus! {

/// The control sequence written to a terminal output when the input ends:
/// soft terminal reset (`ESC [ ! p`), carriage return, and erase to the end
/// of the line (`ESC [ K`).
pub open spec fn reset_sequence() -> Seq<u8> {
    seq![0x1bu8, 0x5bu8, 0x21u8, 0x70u8, 0x0du8, 0x1bu8, 0x5bu8, 0x4bu8]
}

/// The decorator's own writes after a read: one reset sequence more when
/// the read met the end of the input and the output is a terminal.
pub open spec fn after_read(before: Seq<Seq<u8>>, end_of_input: bool, output_terminal: bool) -> Seq<
    Seq<u8>,
> {
    if end_of_input && output_terminal {
        before.push(reset_sequence())
    } else {
        before
    }
}

/// Whether a read succeeded with no bytes.
pub open spec fn read_nothing(r: &std::io::Result<usize>) -> bool {
    r is Ok && r->Ok_0 == 0
}

/// Whether an exact-length read failed by meeting the end of the input.
pub open spec fn ended_early(r: &std::io::Result<()>) -> bool {
    r is Err && unexpected_eof_of(r->Err_0)
}

/// Whether any of the buffers of a vectored read has room for a byte.
pub open spec fn any_room(bufs: Seq<IoSliceMut<'_>>) -> bool {
    exists|j: int| 0 <= j < bufs.len() && slice_len_of(#[trigger] bufs[j]) > 0
}

/// A wrapper around a `Read` + `Write` which adds minimal terminal support.
pub struct TerminalDuplexer<Inner> {
    inner: Inner,
    read_config: Option<ReadConfig>,
    write_config: Option<WriteConfig>,
    control: Ghost<Seq<Seq<u8>>>,
}

impl<Inner> TerminalDuplexer<Inner> {
    /// The wrapped stream.
    pub closed spec fn inner(&self) -> Inner {
        self.inner
    }

    /// The input configuration detected when the duplexer was made.
    pub closed spec fn read_config(&self) -> Option<ReadConfig> {
        self.read_config
    }

    /// The output configuration detected when the duplexer was made.
    pub closed spec fn write_config(&self) -> Option<WriteConfig> {
        self.write_config
    }

    /// The control sequences that the duplexer has written to the output on
    /// its own, oldest first.
    pub closed spec fn control_writes(&self) -> Seq<Seq<u8>> {
        self.control@
    }

    /// Wrap a `TerminalDuplexer` around the given stream, autodetecting
    /// terminal properties using its `AsReadWriteGrip` implementation.
    /// `no_color` tells whether the color-disabling environment variable is
    /// set; `max_colors` is the maximum color count that the terminal
    /// database reports for standard output (`None` when the lookup failed).
    ///
    /// Fails only when the output is standard output, a terminal, and
    /// `max_colors` stands for no known tier.
    pub fn with_handle(inner: Inner, no_color: bool, max_colors: Option<i32>) -> (r: Result<
        Self,
        UnrecognizedColorCount,
    >) where Inner: AsReadWriteGrip
        ensures
            exists|read: RawGrip, write: RawGrip, env: Environment, t: Seq<ProbeEvent>|
                env.no_color == no_color && colors_answered(t, max_colors) && read_write_events(read, write, env, t)
                    && match read_write_result(read, write, env, t) {
                    Ok((rc, wc)) => r matches Ok(d) && d.inner() == inner && d.read_config() == rc
                        && d.write_config() == wc && d.control_writes() == Seq::<Seq<u8>>::empty(),
                    Err(e) => r == Err::<Self, UnrecognizedColorCount>(e),
                },
            r matches Err(e) ==> color_tier(e.count) is None && max_colors == Some(e.count),
            max_colors is None || color_tier(max_colors->Some_0) is Some ==> r is Ok,
    {
        let env = Environment::current(no_color);
        let ghost mut read: RawGrip = 0;
        let ghost mut write: RawGrip = 0;
        let ghost mut t: Seq<ProbeEvent> = Seq::empty();
        let detected = {
            let mut probe = SystemProbe::new(read_grip_of(&inner), write_grip_of(&inner), max_colors);
            let ghost before = probe.events();
            proof {
                read = probe.grip(Side::Read);
                write = probe.grip(Side::Write);
            }
            let c = detect_read_write_config(&mut probe, &env);
            proof {
                t = since(before, probe.events());
            }
            c
        };
        proof {
            lemma_read_write_errors_are_unrecognized_counts(read, write, env, t, max_colors);
        }
        let r = match detected {
            Ok((read_config, write_config)) => Ok(
                TerminalDuplexer { inner, read_config, write_config, control: Ghost(Seq::empty()) },
            ),
            Err(e) => Err(e),
        };
        assert(env.no_color == no_color && colors_answered(t, max_colors) && read_write_events(read, write, env, t)
            && match read_write_result(read, write, env, t) {
            Ok((rc, wc)) => r matches Ok(d) && d.inner() == inner && d.read_config() == rc
                && d.write_config() == wc && d.control_writes() == Seq::<Seq<u8>>::empty(),
            Err(e) => r == Err::<Self, UnrecognizedColorCount>(e),
        });
        r
    }

    /// Wrap a `TerminalDuplexer` around the given stream, taking its
    /// terminal properties from the answers of `probe` about its two sides.
    pub fn with_probe<P: HandleProbe>(inner: Inner, probe: &mut P, env: &Environment) -> (r: Result<
        Self,
        UnrecognizedColorCount,
    >)
        ensures
            colors_answered(
                since(old(probe).events(), final(probe).events()),
                old(probe).reported_colors(),
            ),
            old(probe).events().is_prefix_of(final(probe).events()),
            read_write_events(
                old(probe).grip(Side::Read),
                old(probe).grip(Side::Write),
                *env,
                since(old(probe).events(), final(probe).events()),
            ),
            match read_write_result(
                old(probe).grip(Side::Read),
                old(probe).grip(Side::Write),
                *env,
                since(old(probe).events(), final(probe).events()),
            ) {
                Ok((rc, wc)) => r matches Ok(d) && d.inner() == inner && d.read_config() == rc
                    && d.write_config() == wc && d.control_writes() == Seq::<Seq<u8>>::empty(),
                Err(e) => r == Err::<Self, UnrecognizedColorCount>(e),
            },
    {
        match detect_read_write_config(probe, env) {
            Ok((read_config, write_config)) => Ok(
                TerminalDuplexer { inner, read_config, write_config, control: Ghost(Seq::empty()) },
            ),
            Err(e) => Err(e),
        }
    }

    /// Wrap a `TerminalDuplexer` around the given stream, using
    /// conservative terminal properties.
    pub fn generic(inner: Inner) -> (r: Self)
        ensures
            r.inner() == inner,
            r.read_config() is None,
            r.write_config() is None,
            r.control_writes() == Seq::<Seq<u8>>::empty(),
    {
        TerminalDuplexer { inner, read_config: None, write_config: None, control: Ghost(Seq::empty()) }
    }

    /// Consume `self` and return the inner stream.
    pub fn into_inner(self) -> (r: Inner)
        ensures
            r == self.inner(),
    {
        self.inner
    }
}

impl<Inner: Write> TerminalDuplexer<Inner> {
    /// Clear what an interactive session left on a terminal output; a
    /// failure to write is ignored.
    fn reset(&mut self)
        ensures
            final(self).read_config() == old(self).read_config(),
            final(self).write_config() == old(self).write_config(),
            final(self).control_writes() == after_read(
                old(self).control_writes(),
                true,
                output_terminal_of(old(self).write_config()),
            ),
    {
        if self.write_config.is_some() {
            let sequence: [u8; 8] = [0x1b, 0x5b, 0x21, 0x70, 0x0d, 0x1b, 0x5b, 0x4b];
            let _ = stream::write(&mut self.inner, &sequence);
            proof {
                assert(sequence@ =~= reset_sequence());
            }
            self.control = Ghost(self.control@.push(sequence@));
        }
    }

    /// Finish a read of `requested` bytes whose inner result is `res`: an
    /// empty result for a non-empty request is the end of the input.
    fn finish_read(&mut self, requested: usize, res: std::io::Result<usize>) -> (r:
        std::io::Result<usize>)
        ensures
            r == res,
            final(self).read_config() == old(self).read_config(),
            final(self).write_config() == old(self).write_config(),
            final(self).control_writes() == after_read(
                old(self).control_writes(),
                requested > 0 && read_nothing(&res),
                output_terminal_of(old(self).write_config()),
            ),
    {
        match res {
            Ok(n) => {
                if n == 0 && requested > 0 {
                    self.reset();
                }
                Ok(n)
            },
            Err(e) => Err(e),
        }
    }

    /// Finish a vectored read into `bufs` whose inner result is `res`: an
    /// empty result when some buffer had room is the end of the input.
    fn finish_read_vectored(&mut self, bufs: &[IoSliceMut<'_>], res: std::io::Result<usize>) -> (r:
        std::io::Result<usize>)
        ensures
            r == res,
            final(self).read_config() == old(self).read_config(),
            final(self).write_config() == old(self).write_config(),
            final(self).control_writes() == after_read(
                old(self).control_writes(),
                read_nothing(&res) && any_room(bufs@),
                output_terminal_of(old(self).write_config()),
            ),
    {
        match res {
            Ok(n) => {
                if n == 0 {
                    let mut requested = false;
                    let mut i: usize = 0;
                    while i < bufs.len()
                        invariant
                            i <= bufs@.len(),
                            requested == exists|j: int|
                                0 <= j < i && slice_len_of(#[trigger] bufs@[j]) > 0,
                        decreases bufs@.len() - i,
                    {
                        if stream::io_slice_len(&bufs[i]) > 0 {
                            requested = true;
                        }
                        i = i + 1;
                    }
                    if requested {
                        self.reset();
                    }
                }
                Ok(n)
            },
            Err(e) => Err(e),
        }
    }

    /// Finish a read to the end of the input whose inner result is `res`:
    /// success means the end was reached.
    fn finish_read_to_end(&mut self, res: std::io::Result<usize>) -> (r: std::io::Result<usize>)
        ensures
            r == res,
            final(self).read_config() == old(self).read_config(),
            final(self).write_config() == old(self).write_config(),
            final(self).control_writes() == after_read(
                old(self).control_writes(),
                res is Ok,
                output_terminal_of(old(self).write_config()),
            ),
    {
        match res {
            Ok(n) => {
                self.reset();
                Ok(n)
            },
            Err(e) => Err(e),
        }
    }

    /// Finish an exact-length read whose inner result is `res`: an
    /// unexpected end of file is the end of the input.
    fn finish_read_exact(&mut self, res: std::io::Result<()>) -> (r: std::io::Result<()>)
        ensures
            r == res,
            final(self).read_config() == old(self).read_config(),
            final(self).write_config() == old(self).write_config(),
            final(self).control_writes() == after_read(
                old(self).control_writes(),
                ended_early(&res),
                output_terminal_of(old(self).write_config()),
            ),
    {
        match res {
            Ok(done) => Ok(done),
            Err(e) => {
                if stream::is_unexpected_eof(&e) {
                    self.reset();
                }
                Err(e)
            },
        }
    }
}

impl<Inner: AsRawReadWriteFd> AsRawReadWriteFd for TerminalDuplexer<Inner> {
    /// Relies on the inner stream's `AsRawReadWriteFd::as_raw_read_fd`.
    #[verifier::external_body]
    fn as_raw_read_fd(&self) -> RawFd {
        self.inner.as_raw_read_fd()
    }

    /// Relies on the inner stream's `AsRawReadWriteFd::as_raw_write_fd`.
    #[verifier::external_body]
    fn as_raw_write_fd(&self) -> RawFd {
        self.inner.as_raw_write_fd()
    }
}

impl<Inner: AsReadWriteFd> AsReadWriteFd for TerminalDuplexer<Inner> {
    /// Relies on the inner stream's `AsReadWriteFd::as_read_fd`.
    #[verifier::external_body]
    fn as_read_fd(&self) -> BorrowedFd<'_> {
        self.inner.as_read_fd()
    }

    /// Relies on the inner stream's `AsReadWriteFd::as_write_fd`.
    #[verifier::external_body]
    fn as_write_fd(&self) -> BorrowedFd<'_> {
        self.inner.as_write_fd()
    }

}

impl<Inner> Terminal for TerminalDuplexer<Inner> {}

impl<Inner> ReadTerminal for TerminalDuplexer<Inner> {
    open spec fn input_terminal(&self) -> bool {
        input_terminal_of(self.read_config())
    }

    open spec fn line_by_line(&self) -> bool {
        line_by_line_of(self.read_config())
    }

    fn is_line_by_line(&self) -> (r: bool) {
        match &self.read_config {
            Some(c) => c.line_by_line,
            None => false,
        }
    }

    fn is_input_terminal(&self) -> (r: bool) {
        self.read_config.is_some()
    }
}

impl<Inner> WriteTerminal for TerminalDuplexer<Inner> {
    open spec fn output_terminal(&self) -> bool {
        output_terminal_of(self.write_config())
    }

    open spec fn colors(&self) -> TerminalColorSupport {
        color_support_of(self.write_config())
    }

    open spec fn prefers_color(&self) -> bool {
        color_preference_of(self.write_config())
    }

    fn color_support(&self) -> (r: TerminalColorSupport) {
        match &self.write_config {
            Some(c) => c.color_support,
            None => TerminalColorSupport::default(),
        }
    }

    fn color_preference(&self) -> (r: bool) {
        match &self.write_config {
            Some(c) => c.color_preference,
            None => false,
        }
    }

    fn is_output_terminal(&self) -> (r: bool) {
        self.write_config.is_some()
    }
}

impl<Inner> DuplexTerminal for TerminalDuplexer<Inner> {}

impl<Inner: Duplex> Duplex for TerminalDuplexer<Inner> {}

impl<Inner: Read + Write> Read for TerminalDuplexer<Inner> {
    fn read(&mut self, buf: &mut [u8]) -> (r: std::io::Result<usize>)
        ensures
            final(self).read_config() == old(self).read_config(),
            final(self).write_config() == old(self).write_config(),
            final(self).control_writes() == after_read(
                old(self).control_writes(),
                old(buf)@.len() > 0 && read_nothing(&r),
                output_terminal_of(old(self).write_config()),
            ),
    {
        let requested = buf.len();
        let res = stream::read(&mut self.inner, buf);
        self.finish_read(requested, res)
    }

    fn read_vectored(&mut self, bufs: &mut [IoSliceMut<'_>]) -> (r: std::io::Result<usize>)
        ensures
            final(self).read_config() == old(self).read_config(),
            final(self).write_config() == old(self).write_config(),
            final(self).control_writes() == after_read(
                old(self).control_writes(),
                read_nothing(&r) && any_room(final(bufs)@),
                output_terminal_of(old(self).write_config()),
            ),
    {
        let res = stream::read_vectored(&mut self.inner, bufs);
        self.finish_read_vectored(bufs, res)
    }

    fn read_to_end(&mut self, buf: &mut Vec<u8>) -> (r: std::io::Result<usize>)
        ensures
            final(self).read_config() == old(self).read_config(),
            final(self).write_config() == old(self).write_config(),
            final(self).control_writes() == after_read(
                old(self).control_writes(),
                r is Ok,
                output_terminal_of(old(self).write_config()),
            ),
    {
        let res = stream::read_to_end(&mut self.inner, buf);
        self.finish_read_to_end(res)
    }

    fn read_to_string(&mut self, buf: &mut String) -> (r: std::io::Result<usize>)
        ensures
            final(self).read_config() == old(self).read_config(),
            final(self).write_config() == old(self).write_config(),
            final(self).control_writes() == after_read(
                old(self).control_writes(),
                r is Ok,
                output_terminal_of(old(self).write_config()),
            ),
    {
        let res = stream::read_to_string(&mut self.inner, buf);
        self.finish_read_to_end(res)
    }

    fn read_exact(&mut self, buf: &mut [u8]) -> (r: std::io::Result<()>)
        ensures
            final(self).read_config() == old(self).read_config(),
            final(self).write_config() == old(self).write_config(),
            final(self).control_writes() == after_read(
                old(self).control_writes(),
                ended_early(&r),
                output_terminal_of(old(self).write_config()),
            ),
    {
        let res = stream::read_exact(&mut self.inner, buf);
        self.finish_read_exact(res)
    }
}

impl<Inner: Read + Write> Write for TerminalDuplexer<Inner> {
    fn write(&mut self, buf: &[u8]) -> (r: std::io::Result<usize>)
        ensures
            final(self).read_config() == old(self).read_config(),
            final(self).write_config() == old(self).write_config(),
            final(self).control_writes() == old(self).control_writes(),
    {
        stream::write(&mut self.inner, buf)
    }

    fn flush(&mut self) -> (r: std::io::Result<()>)
        ensures
            final(self).read_config() == old(self).read_config(),
            final(self).write_config() == old(self).write_config(),
            final(self).control_writes() == old(self).control_writes(),
    {
        stream::flush(&mut self.inner)
    }

    fn write_vectored(&mut self, bufs: &[IoSlice<'_>]) -> (r: std::io::Result<usize>)
        ensures
            final(self).read_config() == old(self).read_config(),
            final(self).write_config() == old(self).write_config(),
            final(self).control_writes() == old(self).control_writes(),
    {
        stream::write_vectored(&mut self.inner, bufs)
    }

    fn write_all(&mut self, buf: &[u8]) -> (r: std::io::Result<()>)
        ensures
            final(self).read_config() == old(self).read_config(),
            final(self).write_config() == old(self).write_config(),
            final(self).control_writes() == old(self).control_writes(),
    {
        stream::write_all(&mut self.inner, buf)
    }
}

} // verus!
