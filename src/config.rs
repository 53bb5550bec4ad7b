//! Capability detection: from the answers of a [`HandleProbe`] to the
//! configuration snapshot that a decorator keeps.
use crate::probe::{terminal_checks, HandleProbe, ProbeEvent, RawGrip, Side};
use crate::terminal::TerminalColorSupport;
use vstd::prelude::*;

verus! {

/// What is known of an input side that is a terminal.
#[derive(Clone, Copy, Debug, PartialEq, Eq, Structural)]
pub struct ReadConfig {
    /// Whether input is delivered a line at a time (canonical mode).
    pub line_by_line: bool,
}

/// What is known of an output side that is a terminal.
#[derive(Clone, Copy, Debug, PartialEq, Eq, Structural)]
pub struct WriteConfig {
    /// The color tier of the terminal.
    pub color_support: TerminalColorSupport,
    /// Whether the user has not opted out of color.
    pub color_preference: bool,
}

/// The process-wide facts that the color rules depend on: the identities of
/// the process's standard output and standard error, and whether the
/// color-disabling environment variable (`NO_COLOR`) is present.
#[derive(Clone, Copy, Debug, PartialEq, Eq, Structural)]
pub struct Environment {
    /// Raw identity of standard output.
    pub stdout: RawGrip,
    /// Raw identity of standard error.
    pub stderr: RawGrip,
    /// Whether the color-disabling variable is set (its value is ignored).
    pub no_color: bool,
}

/// The terminal database reported a color count that maps to no tier. The
/// environment is inconsistent; detection cannot go on.
#[derive(Clone, Copy, Debug, PartialEq, Eq, Structural)]
pub struct UnrecognizedColorCount {
    /// The count that was reported.
    pub count: i32,
}

/// Whether a decorator holding `c` reports its input as a terminal.
pub open spec fn input_terminal_of(c: Option<ReadConfig>) -> bool {
    c is Some
}

/// Whether a decorator holding `c` reports line-by-line input.
pub open spec fn line_by_line_of(c: Option<ReadConfig>) -> bool {
    match c {
        Some(r) => r.line_by_line,
        None => false,
    }
}

/// Whether a decorator holding `c` reports its output as a terminal.
pub open spec fn output_terminal_of(c: Option<WriteConfig>) -> bool {
    c is Some
}

/// The color tier a decorator holding `c` reports: monochrome when absent.
pub open spec fn color_support_of(c: Option<WriteConfig>) -> TerminalColorSupport {
    match c {
        Some(w) => w.color_support,
        None => TerminalColorSupport::Monochrome,
    }
}

/// The color preference a decorator holding `c` reports: none when absent.
pub open spec fn color_preference_of(c: Option<WriteConfig>) -> bool {
    match c {
        Some(w) => w.color_preference,
        None => false,
    }
}

/// The tier that a color count from the terminal database stands for.
pub open spec fn color_tier(n: i32) -> Option<TerminalColorSupport> {
    if n == -1 {
        Some(TerminalColorSupport::Monochrome)
    } else if n == 8 {
        Some(TerminalColorSupport::Classic8)
    } else if n == 256 {
        Some(TerminalColorSupport::ColorCube256)
    } else {
        None
    }
}

/// The read configuration that a terminal-attributes answer gives.
pub open spec fn read_config_from(attributes: Option<bool>) -> Option<ReadConfig> {
    match attributes {
        Some(canonical) => Some(ReadConfig { line_by_line: canonical }),
        None => None,
    }
}

/// Whether the user prefers color on the output `write`: only the standard
/// streams carry a preference, and only without the opt-out.
pub open spec fn stdio_preference(env: Environment, write: RawGrip) -> bool {
    (write == env.stdout || write == env.stderr) && !env.no_color
}

/// The configuration of a terminal output, given what the database said of
/// its color count.
pub open spec fn classified(colors: Option<i32>, preference: bool) -> Result<
    WriteConfig,
    UnrecognizedColorCount,
> {
    match colors {
        None => Ok(WriteConfig { color_support: TerminalColorSupport::Monochrome, color_preference: preference }),
        Some(n) => match color_tier(n) {
            Some(tier) => Ok(WriteConfig { color_support: tier, color_preference: preference }),
            None => Err(UnrecognizedColorCount { count: n }),
        },
    }
}

/// The color count answered by the first event of `t`, if it is a lookup.
pub open spec fn colors_answer(t: Seq<ProbeEvent>) -> Option<i32> {
    if t.len() > 0 {
        match t[0] {
            ProbeEvent::MaxColors(c) => c,
            _ => None,
        }
    } else {
        None
    }
}

/// The queries made to classify an output known to be a terminal: one
/// color lookup for standard output, none for any other handle.
pub open spec fn known_terminal_events(write: RawGrip, env: Environment, t: Seq<ProbeEvent>) -> bool {
    if write == env.stdout {
        t.len() == 1 && t[0] is MaxColors
    } else {
        t.len() == 0
    }
}

/// The configuration of an output known to be a terminal. Only standard
/// output has its color count looked up; any other handle is monochrome.
pub open spec fn known_terminal_config(write: RawGrip, env: Environment, colors: Option<i32>) -> Result<
    WriteConfig,
    UnrecognizedColorCount,
> {
    if write == env.stdout {
        classified(colors, stdio_preference(env, write))
    } else {
        Ok(
            WriteConfig {
                color_support: TerminalColorSupport::Monochrome,
                color_preference: stdio_preference(env, write),
            },
        )
    }
}

/// Lifts a configuration into the "maybe a terminal" result.
pub open spec fn some_config(r: Result<WriteConfig, UnrecognizedColorCount>) -> Result<
    Option<WriteConfig>,
    UnrecognizedColorCount,
> {
    match r {
        Ok(w) => Ok(Some(w)),
        Err(e) => Err(e),
    }
}

/// The queries made to detect the read configuration of `side`: one
/// attributes query.
pub open spec fn read_events(side: Side, t: Seq<ProbeEvent>) -> bool {
    t.len() == 1 && t[0] is Attributes && t[0]->Attributes_0 == side
}

/// The read configuration that the events of a read detection give.
pub open spec fn read_result(t: Seq<ProbeEvent>) -> Option<ReadConfig> {
    match t[0] {
        ProbeEvent::Attributes(_, a) => read_config_from(a),
        _ => None,
    }
}

/// The queries made to detect the write configuration of `side`: one
/// terminal-ness check, then, for a terminal, its classification.
pub open spec fn write_events(side: Side, write: RawGrip, env: Environment, t: Seq<ProbeEvent>) -> bool {
    t.len() >= 1 && t[0] is Isatty && t[0]->Isatty_0 == side && if t[0]->Isatty_1 {
        known_terminal_events(write, env, t.drop_first())
    } else {
        t.len() == 1
    }
}

/// The write configuration that the events of a write detection give.
pub open spec fn write_result(write: RawGrip, env: Environment, t: Seq<ProbeEvent>) -> Result<
    Option<WriteConfig>,
    UnrecognizedColorCount,
> {
    if t[0] is Isatty && t[0]->Isatty_1 {
        some_config(known_terminal_config(write, env, colors_answer(t.drop_first())))
    } else {
        Ok(None)
    }
}

/// Puts a read and a write outcome together; an unrecognized color count
/// wins.
pub open spec fn paired(
    read: Option<ReadConfig>,
    write: Result<Option<WriteConfig>, UnrecognizedColorCount>,
) -> Result<(Option<ReadConfig>, Option<WriteConfig>), UnrecognizedColorCount> {
    match write {
        Ok(w) => Ok((read, w)),
        Err(e) => Err(e),
    }
}

/// Whether the read side of a duplex detection was found to be a terminal.
pub open spec fn read_side_terminal(t: Seq<ProbeEvent>) -> bool {
    t.len() >= 1 && t[0] is Attributes && t[0]->Attributes_1 is Some
}

/// The queries made to detect both configurations of a duplex resource:
/// the read side's attributes first. When both sides are one resource and
/// it is a terminal, the write side is only classified; otherwise it is
/// probed in full.
pub open spec fn read_write_events(
    read: RawGrip,
    write: RawGrip,
    env: Environment,
    t: Seq<ProbeEvent>,
) -> bool {
    t.len() >= 1 && t[0] is Attributes && t[0]->Attributes_0 == Side::Read && if read == write
        && read_side_terminal(t) {
        known_terminal_events(write, env, t.drop_first())
    } else {
        write_events(Side::Write, write, env, t.drop_first())
    }
}

/// The configurations that the events of a duplex detection give.
pub open spec fn read_write_result(
    read: RawGrip,
    write: RawGrip,
    env: Environment,
    t: Seq<ProbeEvent>,
) -> Result<(Option<ReadConfig>, Option<WriteConfig>), UnrecognizedColorCount> {
    if read == write && read_side_terminal(t) {
        paired(
            read_result(t),
            some_config(known_terminal_config(write, env, colors_answer(t.drop_first()))),
        )
    } else {
        paired(read_result(t), write_result(write, env, t.drop_first()))
    }
}

/// Every color count answered in `t` is `c`.
pub open spec fn colors_answered(t: Seq<ProbeEvent>, c: Option<i32>) -> bool {
    forall|i: int| 0 <= i < t.len() && #[trigger] t[i] is MaxColors ==> t[i]->MaxColors_0 == c
}

/// The events a probe has recorded since it held `before`.
pub open spec fn since(before: Seq<ProbeEvent>, after: Seq<ProbeEvent>) -> Seq<ProbeEvent> {
    after.skip(before.len() as int)
}

/// Map a color count from the terminal database to a color tier:
/// `-1` is monochrome, `8` the classic eight colors, `256` the color cube.
/// Any other count has no tier.
pub fn color_support_from_count(n: i32) -> (r: Option<TerminalColorSupport>)
    ensures
        r == color_tier(n),
{
    if n == -1 {
        Some(TerminalColorSupport::Monochrome)
    } else if n == 8 {
        Some(TerminalColorSupport::Classic8)
    } else if n == 256 {
        Some(TerminalColorSupport::ColorCube256)
    } else {
        None
    }
}

/// Detect the read configuration of one side: absent when the side is not
/// a terminal, otherwise whether its input is line-buffered.
pub fn detect_read_config<P: HandleProbe>(probe: &mut P, side: Side) -> (r: Option<ReadConfig>)
    ensures
        old(probe).events().is_prefix_of(final(probe).events()),
        read_events(side, since(old(probe).events(), final(probe).events())),
        r == read_result(since(old(probe).events(), final(probe).events())),
        final(probe).grip(Side::Read) == old(probe).grip(Side::Read),
        final(probe).grip(Side::Write) == old(probe).grip(Side::Write),
        final(probe).reported_colors() == old(probe).reported_colors(),
        colors_answered(since(old(probe).events(), final(probe).events()), old(probe).reported_colors()),
{
    let attributes = probe.terminal_attributes(side);
    proof {
        assert(since(old(probe).events(), probe.events()) =~= seq![
            ProbeEvent::Attributes(side, attributes),
        ]);
    }
    match attributes {
        Some(canonical) => Some(ReadConfig { line_by_line: canonical }),
        None => None,
    }
}

/// Classify the write side of `probe`, already known to be a terminal.
/// Only standard output has its color count looked up; a count that stands
/// for no tier is an error carrying that count.
pub fn detect_write_config_isatty<P: HandleProbe>(probe: &mut P, env: &Environment) -> (r: Result<
    WriteConfig,
    UnrecognizedColorCount,
>)
    ensures
        old(probe).events().is_prefix_of(final(probe).events()),
        known_terminal_events(
            old(probe).grip(Side::Write),
            *env,
            since(old(probe).events(), final(probe).events()),
        ),
        r == known_terminal_config(
            old(probe).grip(Side::Write),
            *env,
            colors_answer(since(old(probe).events(), final(probe).events())),
        ),
        final(probe).grip(Side::Read) == old(probe).grip(Side::Read),
        final(probe).grip(Side::Write) == old(probe).grip(Side::Write),
        final(probe).reported_colors() == old(probe).reported_colors(),
        colors_answered(since(old(probe).events(), final(probe).events()), old(probe).reported_colors()),
{
    let write = probe.raw_grip(Side::Write);
    let preference = (write == env.stdout || write == env.stderr) && !env.no_color;
    if write == env.stdout {
        let colors = probe.max_color_count();
        proof {
            assert(since(old(probe).events(), probe.events()) =~= seq![
                ProbeEvent::MaxColors(colors),
            ]);
        }
        match colors {
            None => Ok(
                WriteConfig {
                    color_support: TerminalColorSupport::Monochrome,
                    color_preference: preference,
                },
            ),
            Some(n) => match color_support_from_count(n) {
                Some(tier) => Ok(WriteConfig { color_support: tier, color_preference: preference }),
                None => Err(UnrecognizedColorCount { count: n }),
            },
        }
    } else {
        proof {
            assert(since(old(probe).events(), probe.events()) =~= Seq::<ProbeEvent>::empty());
        }
        Ok(WriteConfig { color_support: TerminalColorSupport::Monochrome, color_preference: preference })
    }
}

/// Detect the write configuration of the write side: `Ok(None)` when it is
/// not a terminal, otherwise its color tier and the user's preference.
pub fn detect_write_config<P: HandleProbe>(probe: &mut P, env: &Environment) -> (r: Result<
    Option<WriteConfig>,
    UnrecognizedColorCount,
>)
    ensures
        old(probe).events().is_prefix_of(final(probe).events()),
        write_events(
            Side::Write,
            old(probe).grip(Side::Write),
            *env,
            since(old(probe).events(), final(probe).events()),
        ),
        r == write_result(
            old(probe).grip(Side::Write),
            *env,
            since(old(probe).events(), final(probe).events()),
        ),
        final(probe).grip(Side::Read) == old(probe).grip(Side::Read),
        final(probe).grip(Side::Write) == old(probe).grip(Side::Write),
        final(probe).reported_colors() == old(probe).reported_colors(),
        colors_answered(since(old(probe).events(), final(probe).events()), old(probe).reported_colors()),
{
    let ghost before = probe.events();
    let tty = probe.is_terminal(Side::Write);
    let ghost middle = probe.events();
    if tty {
        let r = detect_write_config_isatty(probe, env);
        proof {
            let t = since(before, probe.events());
            assert(t.drop_first() =~= since(middle, probe.events()));
            assert(middle[before.len() as int] == ProbeEvent::Isatty(Side::Write, true));
            assert(probe.events()[before.len() as int] == middle[before.len() as int]);
            assert(t[0] == ProbeEvent::Isatty(Side::Write, true));
        }
        match r {
            Ok(w) => Ok(Some(w)),
            Err(e) => Err(e),
        }
    } else {
        proof {
            assert(since(before, probe.events()) =~= seq![ProbeEvent::Isatty(Side::Write, false)]);
        }
        Ok(None)
    }
}

/// A duplex detection over one terminal resource makes a single
/// terminal-ness check: the attributes query, then at most a color lookup.
proof fn lemma_single_check(t: Seq<ProbeEvent>)
    requires
        1 <= t.len() <= 2,
        t[0] is Attributes,
        t.len() == 2 ==> t[1] is MaxColors,
    ensures
        terminal_checks(t) == 1,
{
    let first = t.take(1);
    assert(first.drop_last() =~= Seq::<ProbeEvent>::empty());
    assert(first.last() == t[0]);
    assert(terminal_checks(Seq::<ProbeEvent>::empty()) == 0);
    assert(terminal_checks(first) == 1);
    if t.len() == 2 {
        assert(t.drop_last() =~= first);
    } else {
        assert(t =~= first);
    }
}

/// Detect the configurations of both sides of a duplex resource.
///
/// The read side's attributes are queried first. When both sides are the
/// same resource and it is a terminal, the write side is not checked again:
/// it is classified at once. Otherwise the write side is probed in full,
/// since input that is not a terminal says nothing of the output.
pub fn detect_read_write_config<P: HandleProbe>(probe: &mut P, env: &Environment) -> (r: Result<
    (Option<ReadConfig>, Option<WriteConfig>),
    UnrecognizedColorCount,
>)
    ensures
        old(probe).events().is_prefix_of(final(probe).events()),
        read_write_events(
            old(probe).grip(Side::Read),
            old(probe).grip(Side::Write),
            *env,
            since(old(probe).events(), final(probe).events()),
        ),
        r == read_write_result(
            old(probe).grip(Side::Read),
            old(probe).grip(Side::Write),
            *env,
            since(old(probe).events(), final(probe).events()),
        ),
        old(probe).grip(Side::Read) == old(probe).grip(Side::Write) && read_side_terminal(
            since(old(probe).events(), final(probe).events()),
        ) ==> terminal_checks(since(old(probe).events(), final(probe).events())) == 1,
        old(probe).grip(Side::Read) == old(probe).grip(Side::Write) && !read_side_terminal(
            since(old(probe).events(), final(probe).events()),
        ) ==> since(old(probe).events(), final(probe).events())[1] == ProbeEvent::Isatty(
            Side::Write,
            since(old(probe).events(), final(probe).events())[1]->Isatty_1,
        ),
        final(probe).grip(Side::Read) == old(probe).grip(Side::Read),
        final(probe).grip(Side::Write) == old(probe).grip(Side::Write),
        final(probe).reported_colors() == old(probe).reported_colors(),
        colors_answered(since(old(probe).events(), final(probe).events()), old(probe).reported_colors()),
{
    let ghost before = probe.events();
    let read = probe.raw_grip(Side::Read);
    let write = probe.raw_grip(Side::Write);
    let read_config = detect_read_config(probe, Side::Read);
    let ghost middle = probe.events();
    let aliased = read == write;
    let write_config = if aliased && read_config.is_some() {
        match detect_write_config_isatty(probe, env) {
            Ok(w) => Ok(Some(w)),
            Err(e) => Err(e),
        }
    } else {
        detect_write_config(probe, env)
    };
    proof {
        let t = since(before, probe.events());
        assert(t.drop_first() =~= since(middle, probe.events()));
        assert(probe.events()[before.len() as int] == middle[before.len() as int]);
        assert(t[0] == since(before, middle)[0]);
        if aliased && read_config.is_some() {
            lemma_single_check(t);
        }
        if !aliased || read_config.is_none() {
            assert(t[1] == t.drop_first()[0]);
        }
    }
    match write_config {
        Ok(w) => Ok((read_config, w)),
        Err(e) => Err(e),
    }
}

/// A handle whose terminal-ness check fails gets no configuration in either
/// direction, and a decorator holding those answers every query with its
/// default: not a terminal, not line by line, monochrome, no preference.
pub proof fn lemma_non_terminal_defaults(
    side: Side,
    write: RawGrip,
    env: Environment,
    read_trace: Seq<ProbeEvent>,
    write_trace: Seq<ProbeEvent>,
)
    requires
        read_events(side, read_trace),
        read_trace[0] == ProbeEvent::Attributes(side, None),
        write_events(Side::Write, write, env, write_trace),
        write_trace[0] == ProbeEvent::Isatty(Side::Write, false),
    ensures
        read_result(read_trace) is None,
        write_result(write, env, write_trace) == Ok::<
            Option<WriteConfig>,
            UnrecognizedColorCount,
        >(None),
        !input_terminal_of(read_result(read_trace)),
        !line_by_line_of(read_result(read_trace)),
        !output_terminal_of(None),
        color_support_of(None) == TerminalColorSupport::Monochrome,
        !color_preference_of(None),
{
}

/// On standard output, a color count that stands for no tier is fatal to
/// the classification: the result is the error carrying that count, never a
/// configuration.
pub proof fn lemma_unrecognized_count_is_fatal(write: RawGrip, env: Environment, n: i32)
    requires
        write == env.stdout,
        color_tier(n) is None,
    ensures
        known_terminal_config(write, env, Some(n)) == Err::<WriteConfig, UnrecognizedColorCount>(
            UnrecognizedColorCount { count: n },
        ),
{
}

/// What holds of every color answer in `t` holds of those after its first
/// event.
proof fn lemma_colors_answered_rest(t: Seq<ProbeEvent>, c: Option<i32>)
    requires
        colors_answered(t, c),
        t.len() > 0,
    ensures
        colors_answered(t.drop_first(), c),
{
    assert forall|i: int|
        0 <= i < t.drop_first().len() && #[trigger] t.drop_first()[i] is MaxColors implies t.drop_first()[i]->MaxColors_0
            == c by {
        assert(t.drop_first()[i] == t[i + 1]);
    }
}

/// Classifying a known terminal fails only on a reported count with no tier.
proof fn lemma_known_terminal_errors(write: RawGrip, env: Environment, t: Seq<ProbeEvent>, c: Option<i32>)
    requires
        colors_answered(t, c),
    ensures
        known_terminal_config(write, env, colors_answer(t)) matches Err(e) ==> color_tier(e.count) is None
            && c == Some(e.count),
{
    if t.len() > 0 && t[0] is MaxColors {
        assert(t[0]->MaxColors_0 == c);
    }
}

/// Detecting an output fails only on a color count that stands for no
/// tier, and that count is the one the probe reported.
pub proof fn lemma_write_errors_are_unrecognized_counts(
    write: RawGrip,
    env: Environment,
    t: Seq<ProbeEvent>,
    c: Option<i32>,
)
    requires
        colors_answered(t, c),
        write_events(Side::Write, write, env, t),
    ensures
        write_result(write, env, t) matches Err(e) ==> color_tier(e.count) is None && c == Some(
            e.count,
        ),
{
    lemma_colors_answered_rest(t, c);
    lemma_known_terminal_errors(write, env, t.drop_first(), c);
}

/// Detecting a duplex resource fails only on a color count that stands for
/// no tier, and that count is the one the probe reported.
pub proof fn lemma_read_write_errors_are_unrecognized_counts(
    read: RawGrip,
    write: RawGrip,
    env: Environment,
    t: Seq<ProbeEvent>,
    c: Option<i32>,
)
    requires
        colors_answered(t, c),
        read_write_events(read, write, env, t),
    ensures
        read_write_result(read, write, env, t) matches Err(e) ==> color_tier(e.count) is None && c
            == Some(e.count),
{
    lemma_colors_answered_rest(t, c);
    lemma_known_terminal_errors(write, env, t.drop_first(), c);
    if !(read == write && read_side_terminal(t)) {
        lemma_write_errors_are_unrecognized_counts(write, env, t.drop_first(), c);
    }
}

} // verus!
