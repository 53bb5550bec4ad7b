//! The `TerminalWriter` struct.
use crate::config::{
    color_preference_of, color_support_of, color_tier, colors_answered, detect_write_config,
    lemma_write_errors_are_unrecognized_counts, output_terminal_of, since, write_events, write_result,
    Environment, UnrecognizedColorCount, WriteConfig,
};
use crate::probe::{HandleProbe, ProbeEvent, RawGrip, Side};
use crate::stream;
use crate::system::{grip_of, SystemProbe};
use crate::terminal::{Terminal, TerminalColorSupport, WriteTerminal};
use io_extras::grip::AsGrip;
use io_extras::os::rustix::{AsRawFd, RawFd};
use std::io::{IoSlice, Write};
use vstd::prelude::*;

verus! {

/// A wrapper around a `Write` which adds minimal terminal support.
#[derive(Debug)]
pub struct TerminalWriter<Inner> {
    inner: Inner,
    write_config: Option<WriteConfig>,
}

impl<Inner> TerminalWriter<Inner> {
    /// The wrapped stream.
    pub closed spec fn inner(&self) -> Inner {
        self.inner
    }

    /// The configuration detected or given when the writer was made.
    pub closed spec fn config(&self) -> Option<WriteConfig> {
        self.write_config
    }

    /// Wrap a `TerminalWriter` around the given stream, autodetecting
    /// terminal properties using its `AsGrip` implementation. `no_color`
    /// tells whether the color-disabling environment variable is set;
    /// `max_colors` is the maximum color count that the terminal database
    /// reports for standard output (`None` when the lookup failed).
    ///
    /// Fails only when the stream is standard output, a terminal, and
    /// `max_colors` stands for no known tier.
    pub fn with_handle(inner: Inner, no_color: bool, max_colors: Option<i32>) -> (r: Result<
        Self,
        UnrecognizedColorCount,
    >) where Inner: AsGrip
        ensures
            exists|write: RawGrip, env: Environment, t: Seq<ProbeEvent>|
                env.no_color == no_color && colors_answered(t, max_colors) && write_events(Side::Write, write, env, t) && match write_result(
                    write,
                    env,
                    t,
                ) {
                    Ok(c) => r matches Ok(w) && w.inner() == inner && w.config() == c,
                    Err(e) => r == Err::<Self, UnrecognizedColorCount>(e),
                },
            r matches Err(e) ==> color_tier(e.count) is None && max_colors == Some(e.count),
            max_colors is None || color_tier(max_colors->Some_0) is Some ==> r is Ok,
    {
        let env = Environment::current(no_color);
        let ghost mut write: RawGrip = 0;
        let ghost mut t: Seq<ProbeEvent> = Seq::empty();
        let detected = {
            let mut probe = SystemProbe::for_grip(grip_of(&inner), max_colors);
            let ghost before = probe.events();
            proof {
                write = probe.grip(Side::Write);
            }
            let c = detect_write_config(&mut probe, &env);
            proof {
                t = since(before, probe.events());
            }
            c
        };
        proof {
            lemma_write_errors_are_unrecognized_counts(write, env, t, max_colors);
        }
        let r = match detected {
            Ok(write_config) => Ok(TerminalWriter { inner, write_config }),
            Err(e) => Err(e),
        };
        assert(env.no_color == no_color && colors_answered(t, max_colors) && write_events(Side::Write, write, env, t) && match write_result(
            write,
            env,
            t,
        ) {
            Ok(c) => r matches Ok(w) && w.inner() == inner && w.config() == c,
            Err(e) => r == Err::<Self, UnrecognizedColorCount>(e),
        });
        r
    }

    /// Wrap a `TerminalWriter` around the given stream, taking its terminal
    /// properties from the answers of `probe` about its write side.
    pub fn with_probe<P: HandleProbe>(inner: Inner, probe: &mut P, env: &Environment) -> (r: Result<
        Self,
        UnrecognizedColorCount,
    >)
        ensures
            colors_answered(
                since(old(probe).events(), final(probe).events()),
                old(probe).reported_colors(),
            ),
            old(probe).events().is_prefix_of(final(probe).events()),
            write_events(
                Side::Write,
                old(probe).grip(Side::Write),
                *env,
                since(old(probe).events(), final(probe).events()),
            ),
            match write_result(
                old(probe).grip(Side::Write),
                *env,
                since(old(probe).events(), final(probe).events()),
            ) {
                Ok(c) => r matches Ok(w) && w.inner() == inner && w.config() == c,
                Err(e) => r == Err::<Self, UnrecognizedColorCount>(e),
            },
    {
        match detect_write_config(probe, env) {
            Ok(write_config) => Ok(TerminalWriter { inner, write_config }),
            Err(e) => Err(e),
        }
    }

    /// Wrap a `TerminalWriter` around the given stream, using the given
    /// terminal properties.
    pub fn from(
        inner: Inner,
        is_terminal: bool,
        color_support: TerminalColorSupport,
        color_preference: bool,
    ) -> (r: Self)
        ensures
            r.inner() == inner,
            r.config() == if is_terminal {
                Some(WriteConfig { color_support, color_preference })
            } else {
                None
            },
    {
        TerminalWriter {
            inner,
            write_config: if is_terminal {
                Some(WriteConfig { color_support, color_preference })
            } else {
                None
            },
        }
    }

    /// Wrap a `TerminalWriter` around the given stream, using
    /// conservative terminal properties.
    pub fn generic(inner: Inner) -> (r: Self)
        ensures
            r.inner() == inner,
            r.config() is None,
    {
        TerminalWriter { inner, write_config: None }
    }

    /// Consume `self` and return the inner stream.
    pub fn into_inner(self) -> (r: Inner)
        ensures
            r == self.inner(),
    {
        self.inner
    }
}

impl<Inner: AsRawFd> AsRawFd for TerminalWriter<Inner> {
    /// Relies on the inner stream's `AsRawFd::as_raw_fd`.
    #[verifier::external_body]
    fn as_raw_fd(&self) -> RawFd {
        self.inner.as_raw_fd()
    }
}

impl<Inner> Terminal for TerminalWriter<Inner> {}

impl<Inner> WriteTerminal for TerminalWriter<Inner> {
    open spec fn output_terminal(&self) -> bool {
        output_terminal_of(self.config())
    }

    open spec fn colors(&self) -> TerminalColorSupport {
        color_support_of(self.config())
    }

    open spec fn prefers_color(&self) -> bool {
        color_preference_of(self.config())
    }

    fn color_support(&self) -> (r: TerminalColorSupport) {
        match &self.write_config {
            Some(c) => c.color_support,
            None => TerminalColorSupport::default(),
        }
    }

    fn color_preference(&self) -> (r: bool) {
        match &self.write_config {
            Some(c) => c.color_preference,
            None => false,
        }
    }

    fn is_output_terminal(&self) -> (r: bool) {
        self.write_config.is_some()
    }
}

impl<Inner: Write> Write for TerminalWriter<Inner> {
    fn write(&mut self, buf: &[u8]) -> (r: std::io::Result<usize>)
        ensures
            final(self).config() == old(self).config(),
    {
        stream::write(&mut self.inner, buf)
    }

    fn flush(&mut self) -> (r: std::io::Result<()>)
        ensures
            final(self).config() == old(self).config(),
    {
        stream::flush(&mut self.inner)
    }

    fn write_vectored(&mut self, bufs: &[IoSlice<'_>]) -> (r: std::io::Result<usize>)
        ensures
            final(self).config() == old(self).config(),
    {
        stream::write_vectored(&mut self.inner, bufs)
    }

    fn write_all(&mut self, buf: &[u8]) -> (r: std::io::Result<()>)
        ensures
            final(self).config() == old(self).config(),
    {
        stream::write_all(&mut self.inner, buf)
    }
}

} // verus!
