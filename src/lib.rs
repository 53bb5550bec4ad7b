//! Utilities for reading and writing on terminals.
mod config;
mod never_terminal_duplexer;
mod never_terminal_reader;
mod never_terminal_writer;
mod probe;
mod stream;
mod system;
mod terminal;
mod terminal_duplexer;
mod terminal_reader;
mod terminal_writer;

pub use config::{
    color_support_from_count, detect_read_config, detect_read_write_config, detect_write_config,
    detect_write_config_isatty, Environment, ReadConfig, UnrecognizedColorCount, WriteConfig,
};
pub use never_terminal_duplexer::NeverTerminalDuplexer;
pub use never_terminal_reader::NeverTerminalReader;
pub use never_terminal_writer::NeverTerminalWriter;
pub use probe::{HandleProbe, ProbeEvent, RawGrip, Side};
pub use system::SystemProbe;
pub use terminal::{DuplexTerminal, ReadTerminal, Terminal, TerminalColorSupport, WriteTerminal};
pub use terminal_duplexer::TerminalDuplexer;
pub use terminal_reader::TerminalReader;
pub use terminal_writer::TerminalWriter;
