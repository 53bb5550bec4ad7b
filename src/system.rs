//! The POSIX backend of [`HandleProbe`]: terminal queries through rustix.
//! The color count of standard output is looked up by the caller in the
//! terminal database and handed over as a plain value.
use crate::config::Environment;
use crate::probe::{HandleProbe, ProbeEvent, RawGrip, Side};
use io_extras::grip::{AsGrip, AsRawGrip, AsReadWriteGrip};
use rustix::fd::BorrowedFd;
use rustix::termios::{LocalModes, Termios};
use vstd::prelude::*;

verus! {

#[verifier::external_type_specification]
#[verifier::external_body]
pub struct ExBorrowedFd<'a>(BorrowedFd<'a>);

#[verifier::external_type_specification]
#[verifier::external_body]
pub struct ExTermios(Termios);

/// Relies on `rustix::termios::tcgetattr`: the attributes of a terminal,
/// or an error for anything that is not one.
#[verifier::external_body]
fn tcgetattr(fd: BorrowedFd<'_>) -> Option<Termios> {
    rustix::termios::tcgetattr(fd).ok()
}

/// Relies on the `contains` test of rustix's `LocalModes`: whether the
/// `ICANON` flag is among the local modes.
#[verifier::external_body]
fn canonical(t: &Termios) -> bool {
    t.local_modes.contains(LocalModes::ICANON)
}

/// Relies on `rustix::termios::isatty`.
#[verifier::external_body]
fn isatty(fd: BorrowedFd<'_>) -> bool {
    rustix::termios::isatty(fd)
}

/// Relies on io-extras' `AsRawGrip::as_raw_grip`: the descriptor number.
#[verifier::external_body]
fn raw_grip(fd: BorrowedFd<'_>) -> RawGrip {
    fd.as_raw_grip()
}

/// Relies on `rustix::stdio::stdout`: the process's standard output.
#[verifier::external_body]
fn stdout_fd() -> BorrowedFd<'static> {
    rustix::stdio::stdout()
}

/// Relies on `rustix::stdio::stderr`: the process's standard error.
#[verifier::external_body]
fn stderr_fd() -> BorrowedFd<'static> {
    rustix::stdio::stderr()
}

/// Relies on io-extras' `AsGrip::as_grip`: the handle of a stream.
#[verifier::external_body]
pub(crate) fn grip_of<G: AsGrip>(h: &G) -> BorrowedFd<'_> {
    h.as_grip()
}

/// Relies on io-extras' `AsReadWriteGrip::as_read_grip`.
#[verifier::external_body]
pub(crate) fn read_grip_of<G: AsReadWriteGrip>(h: &G) -> BorrowedFd<'_> {
    h.as_read_grip()
}

/// Relies on io-extras' `AsReadWriteGrip::as_write_grip`.
#[verifier::external_body]
pub(crate) fn write_grip_of<G: AsReadWriteGrip>(h: &G) -> BorrowedFd<'_> {
    h.as_write_grip()
}

impl Environment {
    /// The environment of this process, given whether the color-disabling
    /// variable is set.
    pub fn current(no_color: bool) -> (r: Environment)
        ensures
            r.no_color == no_color,
    {
        let stdout = raw_grip(stdout_fd());
        let stderr = raw_grip(stderr_fd());
        Environment { stdout, stderr, no_color }
    }
}

/// Probes the two sides of an OS resource through the operating system.
/// The maximum color count of standard output, as the terminal database
/// reports it (`None` when the lookup failed), is given when the probe is
/// made.
pub struct SystemProbe<'a> {
    read: BorrowedFd<'a>,
    write: BorrowedFd<'a>,
    read_raw: RawGrip,
    write_raw: RawGrip,
    max_colors: Option<i32>,
    events: Ghost<Seq<ProbeEvent>>,
}

impl<'a> SystemProbe<'a> {
    /// A probe of the resource whose read side is `read` and whose write
    /// side is `write`; nothing is queried yet.
    pub fn new(read: BorrowedFd<'a>, write: BorrowedFd<'a>, max_colors: Option<i32>) -> (r: Self)
        ensures
            r.events() == Seq::<ProbeEvent>::empty(),
            r.reported_colors() == max_colors,
    {
        let read_raw = raw_grip(read);
        let write_raw = raw_grip(write);
        SystemProbe { read, write, read_raw, write_raw, max_colors, events: Ghost(Seq::empty()) }
    }

    /// A probe of a single handle, which is both of its sides.
    pub fn for_grip(fd: BorrowedFd<'a>, max_colors: Option<i32>) -> (r: Self)
        ensures
            r.events() == Seq::<ProbeEvent>::empty(),
            r.grip(Side::Read) == r.grip(Side::Write),
            r.reported_colors() == max_colors,
    {
        let raw = raw_grip(fd);
        SystemProbe {
            read: fd,
            write: fd,
            read_raw: raw,
            write_raw: raw,
            max_colors,
            events: Ghost(Seq::empty()),
        }
    }

    fn fd(&self, side: Side) -> BorrowedFd<'a> {
        match side {
            Side::Read => self.read,
            Side::Write => self.write,
        }
    }
}

impl<'a> HandleProbe for SystemProbe<'a> {
    closed spec fn events(&self) -> Seq<ProbeEvent> {
        self.events@
    }

    closed spec fn reported_colors(&self) -> Option<i32> {
        self.max_colors
    }

    closed spec fn grip(&self, side: Side) -> RawGrip {
        match side {
            Side::Read => self.read_raw,
            Side::Write => self.write_raw,
        }
    }

    fn raw_grip(&self, side: Side) -> (r: RawGrip) {
        match side {
            Side::Read => self.read_raw,
            Side::Write => self.write_raw,
        }
    }

    fn terminal_attributes(&mut self, side: Side) -> (r: Option<bool>) {
        let r = match tcgetattr(self.fd(side)) {
            Some(t) => Some(canonical(&t)),
            None => None,
        };
        self.events = Ghost(self.events@.push(ProbeEvent::Attributes(side, r)));
        r
    }

    fn is_terminal(&mut self, side: Side) -> (r: bool) {
        let r = isatty(self.fd(side));
        self.events = Ghost(self.events@.push(ProbeEvent::Isatty(side, r)));
        r
    }

    fn max_color_count(&mut self) -> (r: Option<i32>) {
        let r = self.max_colors;
        self.events = Ghost(self.events@.push(ProbeEvent::MaxColors(r)));
        r
    }
}

} // verus!
