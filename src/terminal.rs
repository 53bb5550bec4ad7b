//! The capability traits shared by every decorator, and the color tiers.
use vstd::prelude::*;

verus! {

/// Color support level, ranging from monochrome (color not supported) to
/// 24-bit true color. The variants are listed in increasing order of
/// capability.
#[derive(Clone, Copy, Debug, PartialEq, Eq, Structural, PartialOrd, Ord, Hash)]
pub enum TerminalColorSupport {
    /// Color is not supported.
    Monochrome,
    /// Classic ANSI 8 colors. Sometimes extendable to 16 by using bold.
    Classic8,
    /// 256 colors with a "color cube".
    ColorCube256,
    /// 24-bit "true color" support.
    TrueColor,
}

impl Default for TerminalColorSupport {
    /// The conservative tier: no color.
    fn default() -> (r: Self)
        ensures
            r == TerminalColorSupport::Monochrome,
    {
        TerminalColorSupport::Monochrome
    }
}

/// A trait for devices which may be connected to terminals.
pub trait Terminal {}

/// An extension trait for input streams connected to terminals.
pub trait ReadTerminal: Terminal {
    /// Whether the input side is attached to a terminal.
    spec fn input_terminal(&self) -> bool;

    /// Whether the input is delivered a line at a time.
    spec fn line_by_line(&self) -> bool;

    /// Test whether the input is being sent a line at a time.
    fn is_line_by_line(&self) -> (r: bool)
        ensures
            r == self.line_by_line(),
    ;

    /// Test whether the input is connected to a terminal.
    ///
    /// Also known as `isatty`.
    fn is_input_terminal(&self) -> (r: bool)
        ensures
            r == self.input_terminal(),
    ;
}

/// An extension trait for output streams connected to terminals.
pub trait WriteTerminal: Terminal {
    /// Whether the output side is attached to a terminal.
    spec fn output_terminal(&self) -> bool;

    /// The color tier of the output.
    spec fn colors(&self) -> TerminalColorSupport;

    /// Whether the user has not opted out of color.
    spec fn prefers_color(&self) -> bool;

    /// Test whether color should be used on this terminal by default. This
    /// includes both whether color is supported and whether the user has
    /// not indicated a preference otherwise.
    fn color_default(&self) -> (r: bool)
        ensures
            r == (self.colors() != TerminalColorSupport::Monochrome && self.prefers_color()),
    {
        let support = self.color_support();
        support != TerminalColorSupport::Monochrome && self.color_preference()
    }

    /// Test whether this output stream supports color control codes.
    fn color_support(&self) -> (r: TerminalColorSupport)
        ensures
            r == self.colors(),
    ;

    /// Test whether the user has indicated a preference for color output by
    /// default. Respects the `NO_COLOR` environment variable where applicable.
    fn color_preference(&self) -> (r: bool)
        ensures
            r == self.prefers_color(),
    ;

    /// Test whether the output is connected to a terminal.
    ///
    /// Also known as `isatty`.
    fn is_output_terminal(&self) -> (r: bool)
        ensures
            r == self.output_terminal(),
    ;
}

/// An extension trait for input/output streams connected to terminals.
pub trait DuplexTerminal: ReadTerminal + WriteTerminal {
    /// Test whether both the input stream and output streams are connected to
    /// terminals.
    ///
    /// Also known as `isatty`.
    fn is_terminal(&self) -> (r: bool)
        ensures
            r == (self.input_terminal() && self.output_terminal()),
    {
        self.is_input_terminal() && self.is_output_terminal()
    }
}

} // verus!
