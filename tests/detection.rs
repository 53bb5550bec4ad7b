use terminal_io::{
    color_support_from_count, detect_read_config, detect_read_write_config, detect_write_config,
    detect_write_config_isatty,
    Environment, HandleProbe, ProbeEvent, ReadConfig, ReadTerminal, Side, TerminalColorSupport,
    TerminalDuplexer, TerminalReader, TerminalWriter, UnrecognizedColorCount, WriteConfig,
    WriteTerminal,
};

const STDOUT: i32 = 1;
const STDERR: i32 = 2;

/// A probe over made-up handles that counts the questions it is asked.
struct FakeProbe {
    read: i32,
    write: i32,
    read_tty: bool,
    write_tty: bool,
    canonical: bool,
    colors: Option<i32>,
    terminal_checks: usize,
    attribute_queries: Vec<Side>,
    isatty_queries: Vec<Side>,
    color_lookups: usize,
}

impl FakeProbe {
    fn new(read: i32, write: i32, read_tty: bool, write_tty: bool) -> FakeProbe {
        FakeProbe {
            read,
            write,
            read_tty,
            write_tty,
            canonical: false,
            colors: None,
            terminal_checks: 0,
            attribute_queries: Vec::new(),
            isatty_queries: Vec::new(),
            color_lookups: 0,
        }
    }

    fn tty(&self, side: Side) -> bool {
        match side {
            Side::Read => self.read_tty,
            Side::Write => self.write_tty,
        }
    }
}

impl HandleProbe for FakeProbe {
    fn events(&self) -> vstd::seq::Seq<ProbeEvent> {
        panic!("a model, not for running")
    }

    fn grip(&self, _side: Side) -> i32 {
        panic!("a model, not for running")
    }

    fn reported_colors(&self) -> Option<i32> {
        self.colors
    }

    fn raw_grip(&self, side: Side) -> i32 {
        match side {
            Side::Read => self.read,
            Side::Write => self.write,
        }
    }

    fn terminal_attributes(&mut self, side: Side) -> Option<bool> {
        self.terminal_checks += 1;
        self.attribute_queries.push(side);
        if self.tty(side) {
            Some(self.canonical)
        } else {
            None
        }
    }

    fn is_terminal(&mut self, side: Side) -> bool {
        self.terminal_checks += 1;
        self.isatty_queries.push(side);
        self.tty(side)
    }

    fn max_color_count(&mut self) -> Option<i32> {
        self.color_lookups += 1;
        self.colors
    }
}

fn env(no_color: bool) -> Environment {
    Environment { stdout: STDOUT, stderr: STDERR, no_color }
}

#[test]
fn color_counts_map_to_tiers() {
    assert_eq!(color_support_from_count(-1), Some(TerminalColorSupport::Monochrome));
    assert_eq!(color_support_from_count(8), Some(TerminalColorSupport::Classic8));
    assert_eq!(color_support_from_count(256), Some(TerminalColorSupport::ColorCube256));
}

#[test]
fn other_color_counts_have_no_tier() {
    for n in [0, 1, 16, 88, 255, 257, 16777216, -2, i32::MIN, i32::MAX] {
        assert_eq!(color_support_from_count(n), None);
    }
}

#[test]
fn unrecognized_color_count_is_fatal_to_detection() {
    let mut probe = FakeProbe::new(7, STDOUT, true, true);
    probe.colors = Some(16);
    assert_eq!(
        detect_write_config(&mut probe, &env(false)),
        Err(UnrecognizedColorCount { count: 16 })
    );
    let mut probe = FakeProbe::new(STDOUT, STDOUT, true, true);
    probe.colors = Some(88);
    let r = TerminalDuplexer::with_probe(Vec::<u8>::new(), &mut probe, &env(false));
    assert!(matches!(r, Err(UnrecognizedColorCount { count: 88 })));
}

#[test]
fn non_terminal_handle_gives_no_config() {
    let mut probe = FakeProbe::new(9, 9, false, false);
    assert_eq!(detect_read_config(&mut probe, Side::Read), None);
    assert_eq!(detect_write_config(&mut probe, &env(false)), Ok(None));

    let reader = TerminalReader::with_probe(std::io::empty(), &mut FakeProbe::new(9, 9, false, false));
    assert!(!reader.is_input_terminal());
    assert!(!reader.is_line_by_line());

    let writer =
        TerminalWriter::with_probe(Vec::<u8>::new(), &mut FakeProbe::new(9, 9, false, false), &env(false))
            .unwrap();
    assert!(!writer.is_output_terminal());
    assert_eq!(writer.color_support(), TerminalColorSupport::Monochrome);
    assert!(!writer.color_preference());
    assert!(!writer.color_default());
}

#[test]
fn non_terminal_stdout_gives_no_config() {
    let mut probe = FakeProbe::new(STDOUT, STDOUT, false, false);
    probe.colors = Some(256);
    assert_eq!(detect_write_config(&mut probe, &env(false)), Ok(None));
    assert_eq!(probe.color_lookups, 0);
}

#[test]
fn aliased_terminal_is_checked_once() {
    let mut probe = FakeProbe::new(5, 5, true, true);
    probe.canonical = true;
    let r = detect_read_write_config(&mut probe, &env(false));
    assert_eq!(
        r,
        Ok((
            Some(ReadConfig { line_by_line: true }),
            Some(WriteConfig { color_support: TerminalColorSupport::Monochrome, color_preference: false })
        ))
    );
    assert_eq!(probe.terminal_checks, 1);
    assert_eq!(probe.attribute_queries, vec![Side::Read]);
    assert!(probe.isatty_queries.is_empty());
}

#[test]
fn aliased_terminal_stdout_is_checked_once() {
    let mut probe = FakeProbe::new(STDOUT, STDOUT, true, true);
    probe.colors = Some(8);
    let r = detect_read_write_config(&mut probe, &env(false));
    assert_eq!(
        r,
        Ok((
            Some(ReadConfig { line_by_line: false }),
            Some(WriteConfig { color_support: TerminalColorSupport::Classic8, color_preference: true })
        ))
    );
    assert_eq!(probe.terminal_checks, 1);
    assert_eq!(probe.color_lookups, 1);
}

#[test]
fn aliased_non_terminal_input_reprobes_output() {
    // The read side answers "not a terminal" although both sides are one
    // resource: the write side is still checked on its own.
    let mut probe = FakeProbe::new(5, 5, false, true);
    let r = detect_read_write_config(&mut probe, &env(false));
    assert_eq!(
        r,
        Ok((
            None,
            Some(WriteConfig { color_support: TerminalColorSupport::Monochrome, color_preference: false })
        ))
    );
    assert_eq!(probe.attribute_queries, vec![Side::Read]);
    assert_eq!(probe.isatty_queries, vec![Side::Write]);
    assert_eq!(probe.terminal_checks, 2);
}

#[test]
fn distinct_sides_are_probed_independently() {
    let mut probe = FakeProbe::new(0, STDOUT, true, true);
    probe.canonical = true;
    probe.colors = Some(256);
    let r = detect_read_write_config(&mut probe, &env(false));
    assert_eq!(
        r,
        Ok((
            Some(ReadConfig { line_by_line: true }),
            Some(WriteConfig { color_support: TerminalColorSupport::ColorCube256, color_preference: true })
        ))
    );
    assert_eq!(probe.attribute_queries, vec![Side::Read]);
    assert_eq!(probe.isatty_queries, vec![Side::Write]);
}

#[test]
fn distinct_sides_with_redirected_output() {
    let mut probe = FakeProbe::new(0, 4, true, false);
    let r = detect_read_write_config(&mut probe, &env(false));
    assert_eq!(r, Ok((Some(ReadConfig { line_by_line: false }), None)));
}

#[test]
fn stdout_terminal_with_256_colors() {
    let mut probe = FakeProbe::new(STDOUT, STDOUT, true, true);
    probe.colors = Some(256);
    let w = TerminalWriter::with_probe(Vec::<u8>::new(), &mut probe, &env(false)).unwrap();
    assert!(w.is_output_terminal());
    assert_eq!(w.color_support(), TerminalColorSupport::ColorCube256);
    assert!(w.color_preference());
    assert!(w.color_default());
}

#[test]
fn stdout_terminal_with_color_disabled() {
    let mut probe = FakeProbe::new(STDOUT, STDOUT, true, true);
    probe.colors = Some(256);
    let w = TerminalWriter::with_probe(Vec::<u8>::new(), &mut probe, &env(true)).unwrap();
    assert!(w.is_output_terminal());
    assert_eq!(w.color_support(), TerminalColorSupport::ColorCube256);
    assert!(!w.color_preference());
    assert!(!w.color_default());
}

#[test]
fn stdout_terminal_without_database_is_monochrome() {
    let mut probe = FakeProbe::new(STDOUT, STDOUT, true, true);
    probe.colors = None;
    let w = TerminalWriter::with_probe(Vec::<u8>::new(), &mut probe, &env(false)).unwrap();
    assert_eq!(w.color_support(), TerminalColorSupport::Monochrome);
    assert!(w.color_preference());
    assert!(!w.color_default());
}

#[test]
fn stdout_terminal_reporting_monochrome() {
    let mut probe = FakeProbe::new(STDOUT, STDOUT, true, true);
    probe.colors = Some(-1);
    let w = TerminalWriter::with_probe(Vec::<u8>::new(), &mut probe, &env(false)).unwrap();
    assert_eq!(w.color_support(), TerminalColorSupport::Monochrome);
}

#[test]
fn stderr_terminal_is_monochrome_with_preference() {
    let mut probe = FakeProbe::new(STDERR, STDERR, true, true);
    probe.colors = Some(256);
    let w = TerminalWriter::with_probe(Vec::<u8>::new(), &mut probe, &env(false)).unwrap();
    assert!(w.is_output_terminal());
    assert_eq!(w.color_support(), TerminalColorSupport::Monochrome);
    assert!(w.color_preference());
    assert_eq!(probe.color_lookups, 0);
    let mut probe = FakeProbe::new(STDERR, STDERR, true, true);
    let w = TerminalWriter::with_probe(Vec::<u8>::new(), &mut probe, &env(true)).unwrap();
    assert!(!w.color_preference());
}

#[test]
fn other_terminal_has_no_color_and_no_preference() {
    let mut probe = FakeProbe::new(12, 12, true, true);
    probe.colors = Some(256);
    let w = TerminalWriter::with_probe(Vec::<u8>::new(), &mut probe, &env(false)).unwrap();
    assert!(w.is_output_terminal());
    assert_eq!(w.color_support(), TerminalColorSupport::Monochrome);
    assert!(!w.color_preference());
    assert_eq!(probe.color_lookups, 0);
}

#[test]
fn aliased_canonical_terminal_is_line_by_line() {
    let mut probe = FakeProbe::new(3, 3, true, true);
    probe.canonical = true;
    let d = TerminalDuplexer::with_probe(Vec::<u8>::new(), &mut probe, &env(false)).unwrap();
    assert!(d.is_line_by_line());
    assert!(d.is_input_terminal());
    assert!(d.is_output_terminal());
    assert_eq!(probe.terminal_checks, 1);
}

#[test]
fn raw_terminal_reader_is_not_line_by_line() {
    let mut probe = FakeProbe::new(3, 3, true, true);
    probe.canonical = false;
    let r = TerminalReader::with_probe(std::io::empty(), &mut probe);
    assert!(r.is_input_terminal());
    assert!(!r.is_line_by_line());
    let mut probe = FakeProbe::new(3, 3, true, true);
    probe.canonical = true;
    let r = TerminalReader::with_probe(std::io::empty(), &mut probe);
    assert!(r.is_line_by_line());
}

#[test]
fn known_stdout_terminal_with_unrecognized_count() {
    for n in [16, 88, 0, 24] {
        let mut probe = FakeProbe::new(STDOUT, STDOUT, true, true);
        probe.colors = Some(n);
        assert_eq!(
            detect_write_config_isatty(&mut probe, &env(false)),
            Err(UnrecognizedColorCount { count: n })
        );
        assert_eq!(probe.terminal_checks, 0);
    }
    let mut probe = FakeProbe::new(STDOUT, STDOUT, true, true);
    probe.colors = Some(256);
    assert_eq!(
        detect_write_config_isatty(&mut probe, &env(false)),
        Ok(WriteConfig { color_support: TerminalColorSupport::ColorCube256, color_preference: true })
    );
}
