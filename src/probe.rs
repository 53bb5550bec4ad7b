//! The primitive questions asked of an OS handle, behind one interface.
use vstd::prelude::*;

verus! {

/// Raw value that identifies an OS resource (a file descriptor). Two equal
/// values denote the same underlying resource.
pub type RawGrip = i32;

/// Which direction of a resource a query is about.
#[derive(Clone, Copy, Debug, PartialEq, Eq, Structural)]
pub enum Side {
    /// The side that is read from.
    Read,
    /// The side that is written to.
    Write,
}

/// One query made through a [`HandleProbe`], with the answer it got.
#[derive(Clone, Copy, Debug, PartialEq, Eq, Structural)]
pub enum ProbeEvent {
    /// The terminal attributes of a side were read: `Some(canonical)` when
    /// the side is a terminal, where `canonical` tells whether input is
    /// processed a line at a time; `None` when it is not a terminal.
    Attributes(Side, Option<bool>),
    /// A side was tested for being a terminal.
    Isatty(Side, bool),
    /// The terminal database was asked for the maximum color count of
    /// standard output.
    MaxColors(Option<i32>),
}

/// Whether an event is a terminal-ness check (reading terminal attributes
/// is one too, as it fails on anything but a terminal).
pub open spec fn is_terminal_check(e: ProbeEvent) -> bool {
    match e {
        ProbeEvent::Attributes(_, _) => true,
        ProbeEvent::Isatty(_, _) => true,
        ProbeEvent::MaxColors(_) => false,
    }
}

/// How many terminal-ness checks a sequence of events holds.
pub open spec fn terminal_checks(t: Seq<ProbeEvent>) -> nat
    decreases t.len(),
{
    if t.len() == 0 {
        0
    } else {
        terminal_checks(t.drop_last()) + if is_terminal_check(t.last()) {
            1nat
        } else {
            0nat
        }
    }
}

/// Answers the primitive questions about the read and write sides of one
/// resource. Every query is recorded, with its answer, in `events`.
pub trait HandleProbe {
    /// Every query made so far, oldest first.
    spec fn events(&self) -> Seq<ProbeEvent>;

    /// The raw identity of a side; fixed for the probe's lifetime.
    spec fn grip(&self, side: Side) -> RawGrip;

    /// The maximum color count that the probe reports for standard output;
    /// fixed for the probe's lifetime.
    spec fn reported_colors(&self) -> Option<i32>;

    /// The raw identity of a side.
    fn raw_grip(&self, side: Side) -> (r: RawGrip)
        ensures
            r == self.grip(side),
    ;

    /// Read the terminal attributes of a side (`tcgetattr`).
    fn terminal_attributes(&mut self, side: Side) -> (r: Option<bool>)
        ensures
            final(self).events() == old(self).events().push(ProbeEvent::Attributes(side, r)),
            final(self).grip(Side::Read) == old(self).grip(Side::Read),
            final(self).grip(Side::Write) == old(self).grip(Side::Write),
            final(self).reported_colors() == old(self).reported_colors(),
    ;

    /// Test whether a side is a terminal (`isatty`).
    fn is_terminal(&mut self, side: Side) -> (r: bool)
        ensures
            final(self).events() == old(self).events().push(ProbeEvent::Isatty(side, r)),
            final(self).grip(Side::Read) == old(self).grip(Side::Read),
            final(self).grip(Side::Write) == old(self).grip(Side::Write),
            final(self).reported_colors() == old(self).reported_colors(),
    ;

    /// Ask the terminal database for the maximum color count that standard
    /// output advertises; `None` when the lookup fails.
    fn max_color_count(&mut self) -> (r: Option<i32>)
        ensures
            r == old(self).reported_colors(),
            final(self).events() == old(self).events().push(ProbeEvent::MaxColors(r)),
            final(self).grip(Side::Read) == old(self).grip(Side::Read),
            final(self).grip(Side::Write) == old(self).grip(Side::Write),
            final(self).reported_colors() == old(self).reported_colors(),
    ;
}

} // verus!
