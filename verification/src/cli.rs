//! Command-line arguments of the emulator.
//!
//! Arguments are read left to right. Flags set switches; options take the next
//! argument as their value (numbers are checked); the first argument that is not an
//! option and does not start with "--" names the ROM or project file. An option
//! whose required value is missing or malformed is an error.
use vstd::prelude::*;
use vstd::string::*;

use crate::numbers::{parse_address, parse_address_exec, parse_u64_exec, parse_unsigned, parse_usize_exec};
use crate::text::{chars_of, opt_view, str_eq};

verus! {

/// Command-line arguments for the emulator
#[derive(Debug)]
pub struct CliArgs {
    pub rom_path: Option<String>,
    /// BIOS file path (for systems that support BIOS)
    pub bios_path: Option<String>,
    /// System to start (pc, nes, gb, atari2600, snes, n64)
    pub system: Option<String>,
    /// BIOS or primary file
    pub slot1: Option<String>,
    /// FloppyA
    pub slot2: Option<String>,
    /// FloppyB
    pub slot3: Option<String>,
    /// HardDrive
    pub slot4: Option<String>,
    /// Reserved for future use
    pub slot5: Option<String>,
    /// (path, format)
    pub create_blank_disk: Option<(String, String)>,
    /// Show help message
    pub show_help: bool,
    /// Show version
    pub show_version: bool,
    /// Benchmark mode: disable frame limiter to measure raw performance
    pub benchmark: bool,
    /// No-GUI mode: run in a plain window without the GUI overlay
    pub no_gui: bool,
    /// Global log level
    pub log_level: Option<String>,
    /// CPU log level
    pub log_cpu: Option<String>,
    /// Bus log level
    pub log_bus: Option<String>,
    /// PPU log level
    pub log_ppu: Option<String>,
    /// APU log level
    pub log_apu: Option<String>,
    /// Interrupt log level
    pub log_interrupts: Option<String>,
    /// Stub/unimplemented log level
    pub log_stubs: Option<String>,
    /// Log file path
    pub log_file: Option<String>,
    /// PC value to trigger debug dump
    pub debug_dump_pc: Option<u32>,
    /// Cycle count to trigger debug dump
    pub debug_dump_cycles: Option<u64>,
    /// Output file for debug dump (default: debug_dump.txt)
    pub debug_dump_file: Option<String>,
    /// Enable instruction tracing
    pub trace_instructions: bool,
    /// Max instructions to keep in trace buffer
    pub trace_limit: Option<usize>,
    /// File to dump trace on breakpoint/exit
    pub trace_dump_file: Option<String>,
    /// List of execution breakpoint addresses
    pub breakpoints: Vec<u32>,
    /// List of read breakpoint addresses
    pub read_breakpoints: Vec<u32>,
    /// List of write breakpoint addresses
    pub write_breakpoints: Vec<u32>,
}

/// The values of the command-line arguments.
pub struct CliArgsView {
    pub rom_path: Option<Seq<char>>,
    pub bios_path: Option<Seq<char>>,
    pub system: Option<Seq<char>>,
    pub slot1: Option<Seq<char>>,
    pub slot2: Option<Seq<char>>,
    pub slot3: Option<Seq<char>>,
    pub slot4: Option<Seq<char>>,
    pub slot5: Option<Seq<char>>,
    pub create_blank_disk: Option<(Seq<char>, Seq<char>)>,
    pub show_help: bool,
    pub show_version: bool,
    pub benchmark: bool,
    pub no_gui: bool,
    pub log_level: Option<Seq<char>>,
    pub log_cpu: Option<Seq<char>>,
    pub log_bus: Option<Seq<char>>,
    pub log_ppu: Option<Seq<char>>,
    pub log_apu: Option<Seq<char>>,
    pub log_interrupts: Option<Seq<char>>,
    pub log_stubs: Option<Seq<char>>,
    pub log_file: Option<Seq<char>>,
    pub debug_dump_pc: Option<u32>,
    pub debug_dump_cycles: Option<u64>,
    pub debug_dump_file: Option<Seq<char>>,
    pub trace_instructions: bool,
    pub trace_limit: Option<usize>,
    pub trace_dump_file: Option<Seq<char>>,
    pub breakpoints: Seq<u32>,
    pub read_breakpoints: Seq<u32>,
    pub write_breakpoints: Seq<u32>,
}

impl View for CliArgs {
    type V = CliArgsView;

    open spec fn view(&self) -> CliArgsView {
        CliArgsView {
            rom_path: opt_view(self.rom_path),
            bios_path: opt_view(self.bios_path),
            system: opt_view(self.system),
            slot1: opt_view(self.slot1),
            slot2: opt_view(self.slot2),
            slot3: opt_view(self.slot3),
            slot4: opt_view(self.slot4),
            slot5: opt_view(self.slot5),
            create_blank_disk: match self.create_blank_disk {
                Some((p, f)) => Some((p@, f@)),
                None => None,
            },
            show_help: self.show_help,
            show_version: self.show_version,
            benchmark: self.benchmark,
            no_gui: self.no_gui,
            log_level: opt_view(self.log_level),
            log_cpu: opt_view(self.log_cpu),
            log_bus: opt_view(self.log_bus),
            log_ppu: opt_view(self.log_ppu),
            log_apu: opt_view(self.log_apu),
            log_interrupts: opt_view(self.log_interrupts),
            log_stubs: opt_view(self.log_stubs),
            log_file: opt_view(self.log_file),
            debug_dump_pc: self.debug_dump_pc,
            debug_dump_cycles: self.debug_dump_cycles,
            debug_dump_file: opt_view(self.debug_dump_file),
            trace_instructions: self.trace_instructions,
            trace_limit: self.trace_limit,
            trace_dump_file: opt_view(self.trace_dump_file),
            breakpoints: self.breakpoints@,
            read_breakpoints: self.read_breakpoints@,
            write_breakpoints: self.write_breakpoints@,
        }
    }
}

/// No argument given: nothing set, no switch on, no breakpoints.
pub open spec fn no_args() -> CliArgsView {
    CliArgsView {
        rom_path: None,
        bios_path: None,
        system: None,
        slot1: None,
        slot2: None,
        slot3: None,
        slot4: None,
        slot5: None,
        create_blank_disk: None,
        show_help: false,
        show_version: false,
        benchmark: false,
        no_gui: false,
        log_level: None,
        log_cpu: None,
        log_bus: None,
        log_ppu: None,
        log_apu: None,
        log_interrupts: None,
        log_stubs: None,
        log_file: None,
        debug_dump_pc: None,
        debug_dump_cycles: None,
        debug_dump_file: None,
        trace_instructions: false,
        trace_limit: None,
        trace_dump_file: None,
        breakpoints: Seq::empty(),
        read_breakpoints: Seq::empty(),
        write_breakpoints: Seq::empty(),
    }
}

impl Default for CliArgs {
    fn default() -> (a: Self)
        ensures
            a@ == no_args(),
    {
        let a = CliArgs {
            rom_path: None,
            bios_path: None,
            system: None,
            slot1: None,
            slot2: None,
            slot3: None,
            slot4: None,
            slot5: None,
            create_blank_disk: None,
            show_help: false,
            show_version: false,
            benchmark: false,
            no_gui: false,
            log_level: None,
            log_cpu: None,
            log_bus: None,
            log_ppu: None,
            log_apu: None,
            log_interrupts: None,
            log_stubs: None,
            log_file: None,
            debug_dump_pc: None,
            debug_dump_cycles: None,
            debug_dump_file: None,
            trace_instructions: false,
            trace_limit: None,
            trace_dump_file: None,
            breakpoints: Vec::new(),
            read_breakpoints: Vec::new(),
            write_breakpoints: Vec::new(),
        };
        assert(a@.breakpoints =~= Seq::<u32>::empty());
        a
    }
}

/// An option that takes a value.
#[derive(Debug, Clone, Copy, PartialEq, Eq, Structural)]
pub enum CliOption {
    /// --system, -S
    System,
    /// --bios
    Bios,
    /// --log-level
    LogLevel,
    /// --log-cpu
    LogCpu,
    /// --log-bus
    LogBus,
    /// --log-ppu
    LogPpu,
    /// --log-apu
    LogApu,
    /// --log-interrupts
    LogInterrupts,
    /// --log-stubs
    LogStubs,
    /// --log-file
    LogFile,
    /// --debug-dump-pc
    DebugDumpPc,
    /// --debug-dump-cycles
    DebugDumpCycles,
    /// --debug-dump-file
    DebugDumpFile,
    /// --trace-limit
    TraceLimit,
    /// --trace-dump-file
    TraceDumpFile,
    /// --breakpoint, -b
    Breakpoint,
    /// --read-breakpoint, -r
    ReadBreakpoint,
    /// --write-breakpoint, -w
    WriteBreakpoint,
}

/// Why the arguments were refused.
#[derive(Debug, Clone, Copy, PartialEq, Eq, Structural)]
pub enum CliError {
    /// The option is the last argument: its value is missing.
    MissingValue(CliOption),
    /// The option's value is not a valid number of its kind.
    InvalidNumber(CliOption),
}

/// What an argument is.
#[derive(Debug, Clone, Copy, PartialEq, Eq, Structural)]
pub enum ArgKind {
    /// --help, -h
    Help,
    /// --version, -v
    Version,
    /// --benchmark
    Benchmark,
    /// --no-gui
    NoGui,
    /// --trace-instructions
    TraceInstructions,
    /// An option whose value is required.
    WithValue(CliOption),
    /// --slot1 .. --slot5 (the number, 1 to 5)
    Slot(u8),
    /// --create-blank-disk <path> <format>
    CreateBlankDisk,
    /// Anything else
    Plain,
}

/// What the argument `a` is.
pub open spec fn classify_arg(a: Seq<char>) -> ArgKind {
    if a == "--help"@ || a == "-h"@ {
        ArgKind::Help
    } else if a == "--version"@ || a == "-v"@ {
        ArgKind::Version
    } else if a == "--benchmark"@ {
        ArgKind::Benchmark
    } else if a == "--no-gui"@ {
        ArgKind::NoGui
    } else if a == "--system"@ || a == "-S"@ {
        ArgKind::WithValue(CliOption::System)
    } else if a == "--bios"@ {
        ArgKind::WithValue(CliOption::Bios)
    } else if a == "--slot1"@ {
        ArgKind::Slot(1)
    } else if a == "--slot2"@ {
        ArgKind::Slot(2)
    } else if a == "--slot3"@ {
        ArgKind::Slot(3)
    } else if a == "--slot4"@ {
        ArgKind::Slot(4)
    } else if a == "--slot5"@ {
        ArgKind::Slot(5)
    } else if a == "--create-blank-disk"@ {
        ArgKind::CreateBlankDisk
    } else if a == "--log-level"@ {
        ArgKind::WithValue(CliOption::LogLevel)
    } else if a == "--log-cpu"@ {
        ArgKind::WithValue(CliOption::LogCpu)
    } else if a == "--log-bus"@ {
        ArgKind::WithValue(CliOption::LogBus)
    } else if a == "--log-ppu"@ {
        ArgKind::WithValue(CliOption::LogPpu)
    } else if a == "--log-apu"@ {
        ArgKind::WithValue(CliOption::LogApu)
    } else if a == "--log-interrupts"@ {
        ArgKind::WithValue(CliOption::LogInterrupts)
    } else if a == "--log-stubs"@ {
        ArgKind::WithValue(CliOption::LogStubs)
    } else if a == "--log-file"@ {
        ArgKind::WithValue(CliOption::LogFile)
    } else if a == "--debug-dump-pc"@ {
        ArgKind::WithValue(CliOption::DebugDumpPc)
    } else if a == "--debug-dump-cycles"@ {
        ArgKind::WithValue(CliOption::DebugDumpCycles)
    } else if a == "--debug-dump-file"@ {
        ArgKind::WithValue(CliOption::DebugDumpFile)
    } else if a == "--trace-instructions"@ {
        ArgKind::TraceInstructions
    } else if a == "--trace-limit"@ {
        ArgKind::WithValue(CliOption::TraceLimit)
    } else if a == "--trace-dump-file"@ {
        ArgKind::WithValue(CliOption::TraceDumpFile)
    } else if a == "--breakpoint"@ || a == "-b"@ {
        ArgKind::WithValue(CliOption::Breakpoint)
    } else if a == "--read-breakpoint"@ || a == "-r"@ {
        ArgKind::WithValue(CliOption::ReadBreakpoint)
    } else if a == "--write-breakpoint"@ || a == "-w"@ {
        ArgKind::WithValue(CliOption::WriteBreakpoint)
    } else {
        ArgKind::Plain
    }
}

/// `acc` with option `opt` given the value `v`, or the error for a malformed number.
pub open spec fn apply_value(acc: CliArgsView, opt: CliOption, v: Seq<char>) -> Result<
    CliArgsView,
    CliError,
> {
    match opt {
        CliOption::System => Ok(CliArgsView { system: Some(v), ..acc }),
        CliOption::Bios => Ok(CliArgsView { bios_path: Some(v), ..acc }),
        CliOption::LogLevel => Ok(CliArgsView { log_level: Some(v), ..acc }),
        CliOption::LogCpu => Ok(CliArgsView { log_cpu: Some(v), ..acc }),
        CliOption::LogBus => Ok(CliArgsView { log_bus: Some(v), ..acc }),
        CliOption::LogPpu => Ok(CliArgsView { log_ppu: Some(v), ..acc }),
        CliOption::LogApu => Ok(CliArgsView { log_apu: Some(v), ..acc }),
        CliOption::LogInterrupts => Ok(CliArgsView { log_interrupts: Some(v), ..acc }),
        CliOption::LogStubs => Ok(CliArgsView { log_stubs: Some(v), ..acc }),
        CliOption::LogFile => Ok(CliArgsView { log_file: Some(v), ..acc }),
        CliOption::DebugDumpFile => Ok(CliArgsView { debug_dump_file: Some(v), ..acc }),
        CliOption::TraceDumpFile => Ok(CliArgsView { trace_dump_file: Some(v), ..acc }),
        CliOption::DebugDumpPc => match parse_address(v) {
            Some(n) => Ok(CliArgsView { debug_dump_pc: Some(n as u32), ..acc }),
            None => Err(CliError::InvalidNumber(opt)),
        },
        CliOption::DebugDumpCycles => match parse_unsigned(v, 10, u64::MAX as nat) {
            Some(n) => Ok(CliArgsView { debug_dump_cycles: Some(n as u64), ..acc }),
            None => Err(CliError::InvalidNumber(opt)),
        },
        CliOption::TraceLimit => match parse_unsigned(v, 10, usize::MAX as nat) {
            Some(n) => Ok(CliArgsView { trace_limit: Some(n as usize), ..acc }),
            None => Err(CliError::InvalidNumber(opt)),
        },
        CliOption::Breakpoint => match parse_address(v) {
            Some(n) => Ok(CliArgsView { breakpoints: acc.breakpoints.push(n as u32), ..acc }),
            None => Err(CliError::InvalidNumber(opt)),
        },
        CliOption::ReadBreakpoint => match parse_address(v) {
            Some(n) => Ok(
                CliArgsView { read_breakpoints: acc.read_breakpoints.push(n as u32), ..acc },
            ),
            None => Err(CliError::InvalidNumber(opt)),
        },
        CliOption::WriteBreakpoint => match parse_address(v) {
            Some(n) => Ok(
                CliArgsView { write_breakpoints: acc.write_breakpoints.push(n as u32), ..acc },
            ),
            None => Err(CliError::InvalidNumber(opt)),
        },
    }
}

/// `acc` with slot `k` (1 to 5) set to `v`.
pub open spec fn set_slot(acc: CliArgsView, k: u8, v: Option<Seq<char>>) -> CliArgsView {
    if k == 1 {
        CliArgsView { slot1: v, ..acc }
    } else if k == 2 {
        CliArgsView { slot2: v, ..acc }
    } else if k == 3 {
        CliArgsView { slot3: v, ..acc }
    } else if k == 4 {
        CliArgsView { slot4: v, ..acc }
    } else {
        CliArgsView { slot5: v, ..acc }
    }
}

/// `a` starts with "--".
pub open spec fn starts_with_dashes(a: Seq<char>) -> bool {
    a.len() >= 2 && a[0] == '-' && a[1] == '-'
}

/// The result of reading `args[i..]` into `acc`.
pub open spec fn parse_from(args: Seq<Seq<char>>, i: int, acc: CliArgsView) -> Result<
    CliArgsView,
    CliError,
>
    decreases args.len() - i,
{
    if i < 0 || i >= args.len() {
        Ok(acc)
    } else {
        let a = args[i];
        let has_next = i + 1 < args.len();
        match classify_arg(a) {
            ArgKind::Help => parse_from(args, i + 1, CliArgsView { show_help: true, ..acc }),
            ArgKind::Version => parse_from(args, i + 1, CliArgsView { show_version: true, ..acc }),
            ArgKind::Benchmark => parse_from(args, i + 1, CliArgsView { benchmark: true, ..acc }),
            ArgKind::NoGui => parse_from(args, i + 1, CliArgsView { no_gui: true, ..acc }),
            ArgKind::TraceInstructions => parse_from(
                args,
                i + 1,
                CliArgsView { trace_instructions: true, ..acc },
            ),
            ArgKind::WithValue(opt) => if has_next {
                match apply_value(acc, opt, args[i + 1]) {
                    Ok(next) => parse_from(args, i + 2, next),
                    Err(e) => Err(e),
                }
            } else {
                Err(CliError::MissingValue(opt))
            },
            ArgKind::Slot(k) => if has_next {
                parse_from(args, i + 2, set_slot(acc, k, Some(args[i + 1])))
            } else {
                Ok(set_slot(acc, k, None))
            },
            ArgKind::CreateBlankDisk => if i + 2 < args.len() {
                parse_from(
                    args,
                    i + 3,
                    CliArgsView { create_blank_disk: Some((args[i + 1], args[i + 2])), ..acc },
                )
            } else {
                Ok(acc)
            },
            ArgKind::Plain => parse_from(
                args,
                i + 1,
                if acc.rom_path is None && !starts_with_dashes(a) {
                    CliArgsView { rom_path: Some(a), ..acc }
                } else {
                    acc
                },
            ),
        }
    }
}

/// The views of a list of strings.
pub open spec fn string_views(args: Seq<String>) -> Seq<Seq<char>> {
    args.map_values(|s: String| s@)
}

/// The message printed for an argument error.
pub open spec fn error_message(e: CliError) -> Seq<char> {
    match e {
        CliError::MissingValue(o) => match o {
            CliOption::System => "Error: --system requires a value (pc, nes, gb, gba, atari2600, atari5200, snes, n64)."@,
            CliOption::Bios => "Error: --bios requires a file path."@,
            CliOption::LogLevel => "Error: --log-level requires a value (e.g., 'debug')."@,
            CliOption::LogCpu => "Error: --log-cpu requires a value (e.g., 'debug')."@,
            CliOption::LogBus => "Error: --log-bus requires a value (e.g., 'debug')."@,
            CliOption::LogPpu => "Error: --log-ppu requires a value (e.g., 'debug')."@,
            CliOption::LogApu => "Error: --log-apu requires a value (e.g., 'debug')."@,
            CliOption::LogInterrupts => "Error: --log-interrupts requires a value (e.g., 'debug')."@,
            CliOption::LogStubs => "Error: --log-stubs requires a value (e.g., 'debug')."@,
            CliOption::LogFile => "Error: --log-file requires a file path (e.g., 'debug_trace.log')."@,
            CliOption::DebugDumpPc => "Error: --debug-dump-pc requires a PC value."@,
            CliOption::DebugDumpCycles => "Error: --debug-dump-cycles requires a cycle count."@,
            CliOption::DebugDumpFile => "Error: --debug-dump-file requires a file path."@,
            CliOption::TraceLimit => "Error: --trace-limit requires a number."@,
            CliOption::TraceDumpFile => "Error: --trace-dump-file requires a file path."@,
            CliOption::Breakpoint => "Error: --breakpoint requires an address."@,
            CliOption::ReadBreakpoint => "Error: --read-breakpoint requires an address."@,
            CliOption::WriteBreakpoint => "Error: --write-breakpoint requires an address."@,
        },
        CliError::InvalidNumber(o) => match o {
            CliOption::DebugDumpPc => "Error: --debug-dump-pc requires a valid number (hex: 0x8000 or decimal: 32768)."@,
            CliOption::DebugDumpCycles => "Error: --debug-dump-cycles requires a valid number."@,
            CliOption::TraceLimit => "Error: --trace-limit requires a valid number."@,
            CliOption::Breakpoint => "Error: --breakpoint requires a valid address (hex: 0x8000 or decimal: 32768)."@,
            CliOption::ReadBreakpoint => "Error: --read-breakpoint requires a valid address (hex: 0x2000 or decimal: 8192)."@,
            CliOption::WriteBreakpoint => "Error: --write-breakpoint requires a valid address (hex: 0x2000 or decimal: 8192)."@,
            _ => "Error: invalid value."@,
        },
    }
}

impl CliError {
    /// The message that explains the error.
    pub fn message(&self) -> (s: String)
        ensures
            s@ == error_message(*self),
    {
        let text: &str = match self {
            CliError::MissingValue(o) => match o {
                CliOption::System => "Error: --system requires a value (pc, nes, gb, gba, atari2600, atari5200, snes, n64).",
                CliOption::Bios => "Error: --bios requires a file path.",
                CliOption::LogLevel => "Error: --log-level requires a value (e.g., 'debug').",
                CliOption::LogCpu => "Error: --log-cpu requires a value (e.g., 'debug').",
                CliOption::LogBus => "Error: --log-bus requires a value (e.g., 'debug').",
                CliOption::LogPpu => "Error: --log-ppu requires a value (e.g., 'debug').",
                CliOption::LogApu => "Error: --log-apu requires a value (e.g., 'debug').",
                CliOption::LogInterrupts => "Error: --log-interrupts requires a value (e.g., 'debug').",
                CliOption::LogStubs => "Error: --log-stubs requires a value (e.g., 'debug').",
                CliOption::LogFile => "Error: --log-file requires a file path (e.g., 'debug_trace.log').",
                CliOption::DebugDumpPc => "Error: --debug-dump-pc requires a PC value.",
                CliOption::DebugDumpCycles => "Error: --debug-dump-cycles requires a cycle count.",
                CliOption::DebugDumpFile => "Error: --debug-dump-file requires a file path.",
                CliOption::TraceLimit => "Error: --trace-limit requires a number.",
                CliOption::TraceDumpFile => "Error: --trace-dump-file requires a file path.",
                CliOption::Breakpoint => "Error: --breakpoint requires an address.",
                CliOption::ReadBreakpoint => "Error: --read-breakpoint requires an address.",
                CliOption::WriteBreakpoint => "Error: --write-breakpoint requires an address.",
            },
            CliError::InvalidNumber(o) => match o {
                CliOption::DebugDumpPc => "Error: --debug-dump-pc requires a valid number (hex: 0x8000 or decimal: 32768).",
                CliOption::DebugDumpCycles => "Error: --debug-dump-cycles requires a valid number.",
                CliOption::TraceLimit => "Error: --trace-limit requires a valid number.",
                CliOption::Breakpoint => "Error: --breakpoint requires a valid address (hex: 0x8000 or decimal: 32768).",
                CliOption::ReadBreakpoint => "Error: --read-breakpoint requires a valid address (hex: 0x2000 or decimal: 8192).",
                CliOption::WriteBreakpoint => "Error: --write-breakpoint requires a valid address (hex: 0x2000 or decimal: 8192).",
                _ => "Error: invalid value.",
            },
        };
        String::from_str(text)
    }
}

/// What the argument `a` is.
fn classify_arg_exec(a: &str) -> (k: ArgKind)
    ensures
        k == classify_arg(a@),
{
    if str_eq(a, "--help") || str_eq(a, "-h") {
        ArgKind::Help
    } else if str_eq(a, "--version") || str_eq(a, "-v") {
        ArgKind::Version
    } else if str_eq(a, "--benchmark") {
        ArgKind::Benchmark
    } else if str_eq(a, "--no-gui") {
        ArgKind::NoGui
    } else if str_eq(a, "--system") || str_eq(a, "-S") {
        ArgKind::WithValue(CliOption::System)
    } else if str_eq(a, "--bios") {
        ArgKind::WithValue(CliOption::Bios)
    } else if str_eq(a, "--slot1") {
        ArgKind::Slot(1)
    } else if str_eq(a, "--slot2") {
        ArgKind::Slot(2)
    } else if str_eq(a, "--slot3") {
        ArgKind::Slot(3)
    } else if str_eq(a, "--slot4") {
        ArgKind::Slot(4)
    } else if str_eq(a, "--slot5") {
        ArgKind::Slot(5)
    } else if str_eq(a, "--create-blank-disk") {
        ArgKind::CreateBlankDisk
    } else if str_eq(a, "--log-level") {
        ArgKind::WithValue(CliOption::LogLevel)
    } else if str_eq(a, "--log-cpu") {
        ArgKind::WithValue(CliOption::LogCpu)
    } else if str_eq(a, "--log-bus") {
        ArgKind::WithValue(CliOption::LogBus)
    } else if str_eq(a, "--log-ppu") {
        ArgKind::WithValue(CliOption::LogPpu)
    } else if str_eq(a, "--log-apu") {
        ArgKind::WithValue(CliOption::LogApu)
    } else if str_eq(a, "--log-interrupts") {
        ArgKind::WithValue(CliOption::LogInterrupts)
    } else if str_eq(a, "--log-stubs") {
        ArgKind::WithValue(CliOption::LogStubs)
    } else if str_eq(a, "--log-file") {
        ArgKind::WithValue(CliOption::LogFile)
    } else if str_eq(a, "--debug-dump-pc") {
        ArgKind::WithValue(CliOption::DebugDumpPc)
    } else if str_eq(a, "--debug-dump-cycles") {
        ArgKind::WithValue(CliOption::DebugDumpCycles)
    } else if str_eq(a, "--debug-dump-file") {
        ArgKind::WithValue(CliOption::DebugDumpFile)
    } else if str_eq(a, "--trace-instructions") {
        ArgKind::TraceInstructions
    } else if str_eq(a, "--trace-limit") {
        ArgKind::WithValue(CliOption::TraceLimit)
    } else if str_eq(a, "--trace-dump-file") {
        ArgKind::WithValue(CliOption::TraceDumpFile)
    } else if str_eq(a, "--breakpoint") || str_eq(a, "-b") {
        ArgKind::WithValue(CliOption::Breakpoint)
    } else if str_eq(a, "--read-breakpoint") || str_eq(a, "-r") {
        ArgKind::WithValue(CliOption::ReadBreakpoint)
    } else if str_eq(a, "--write-breakpoint") || str_eq(a, "-w") {
        ArgKind::WithValue(CliOption::WriteBreakpoint)
    } else {
        ArgKind::Plain
    }
}

fn starts_with_dashes_exec(a: &str) -> (b: bool)
    ensures
        b == starts_with_dashes(a@),
{
    let chars = chars_of(a);
    chars.len() >= 2 && chars[0] == '-' && chars[1] == '-'
}

impl CliArgs {
    /// Give option `opt` the value `v`.
    fn apply_value(&mut self, opt: CliOption, v: &String) -> (r: Result<(), CliError>)
        ensures
            match apply_value(old(self)@, opt, v@) {
                Ok(next) => r is Ok && final(self)@ == next,
                Err(e) => r == Err::<(), CliError>(e),
            },
    {
        match opt {
            CliOption::System => {
                self.system = Some(v.clone());
            },
            CliOption::Bios => {
                self.bios_path = Some(v.clone());
            },
            CliOption::LogLevel => {
                self.log_level = Some(v.clone());
            },
            CliOption::LogCpu => {
                self.log_cpu = Some(v.clone());
            },
            CliOption::LogBus => {
                self.log_bus = Some(v.clone());
            },
            CliOption::LogPpu => {
                self.log_ppu = Some(v.clone());
            },
            CliOption::LogApu => {
                self.log_apu = Some(v.clone());
            },
            CliOption::LogInterrupts => {
                self.log_interrupts = Some(v.clone());
            },
            CliOption::LogStubs => {
                self.log_stubs = Some(v.clone());
            },
            CliOption::LogFile => {
                self.log_file = Some(v.clone());
            },
            CliOption::DebugDumpFile => {
                self.debug_dump_file = Some(v.clone());
            },
            CliOption::TraceDumpFile => {
                self.trace_dump_file = Some(v.clone());
            },
            CliOption::DebugDumpPc => {
                match parse_address_exec(v.as_str()) {
                    Some(pc) => {
                        self.debug_dump_pc = Some(pc);
                    },
                    None => {
                        return Err(CliError::InvalidNumber(opt));
                    },
                }
            },
            CliOption::DebugDumpCycles => {
                match parse_u64_exec(v.as_str()) {
                    Some(cycles) => {
                        self.debug_dump_cycles = Some(cycles);
                    },
                    None => {
                        return Err(CliError::InvalidNumber(opt));
                    },
                }
            },
            CliOption::TraceLimit => {
                match parse_usize_exec(v.as_str()) {
                    Some(limit) => {
                        self.trace_limit = Some(limit);
                    },
                    None => {
                        return Err(CliError::InvalidNumber(opt));
                    },
                }
            },
            CliOption::Breakpoint => {
                match parse_address_exec(v.as_str()) {
                    Some(address) => {
                        self.breakpoints.push(address);
                    },
                    None => {
                        return Err(CliError::InvalidNumber(opt));
                    },
                }
            },
            CliOption::ReadBreakpoint => {
                match parse_address_exec(v.as_str()) {
                    Some(address) => {
                        self.read_breakpoints.push(address);
                    },
                    None => {
                        return Err(CliError::InvalidNumber(opt));
                    },
                }
            },
            CliOption::WriteBreakpoint => {
                match parse_address_exec(v.as_str()) {
                    Some(address) => {
                        self.write_breakpoints.push(address);
                    },
                    None => {
                        return Err(CliError::InvalidNumber(opt));
                    },
                }
            },
        }
        Ok(())
    }

    /// Set slot `k` (1 to 5).
    fn set_slot(&mut self, k: u8, v: Option<String>)
        ensures
            final(self)@ == set_slot(old(self)@, k, opt_view(v)),
    {
        if k == 1 {
            self.slot1 = v;
        } else if k == 2 {
            self.slot2 = v;
        } else if k == 3 {
            self.slot3 = v;
        } else if k == 4 {
            self.slot4 = v;
        } else {
            self.slot5 = v;
        }
    }

    /// Read the command-line arguments (without the program name), left to right.
    pub fn parse_args(args: &[String]) -> (r: Result<Self, CliError>)
        ensures
            match parse_from(string_views(args@), 0, no_args()) {
                Ok(v) => r matches Ok(a) && a@ == v,
                Err(e) => r == Err::<Self, CliError>(e),
            },
    {
        let ghost views = string_views(args@);
        let ghost goal = parse_from(views, 0, no_args());
        let mut out = CliArgs::default();
        let mut i: usize = 0;
        while i < args.len()
            invariant
                i <= args@.len(),
                views == string_views(args@),
                goal == parse_from(views, 0, no_args()),
                goal == parse_from(views, i as int, out@),
            decreases args.len() - i,
        {
            let a = &args[i];
            assert(views[i as int] == a@);
            let has_next = i + 1 < args.len();
            match classify_arg_exec(a.as_str()) {
                ArgKind::Help => {
                    out.show_help = true;
                    i += 1;
                },
                ArgKind::Version => {
                    out.show_version = true;
                    i += 1;
                },
                ArgKind::Benchmark => {
                    out.benchmark = true;
                    i += 1;
                },
                ArgKind::NoGui => {
                    out.no_gui = true;
                    i += 1;
                },
                ArgKind::TraceInstructions => {
                    out.trace_instructions = true;
                    i += 1;
                },
                ArgKind::WithValue(opt) => {
                    if !has_next {
                        return Err(CliError::MissingValue(opt));
                    }
                    assert(views[i + 1] == args@[i + 1]@);
                    match out.apply_value(opt, &args[i + 1]) {
                        Ok(()) => {},
                        Err(e) => {
                            return Err(e);
                        },
                    }
                    i += 2;
                },
                ArgKind::Slot(k) => {
                    if !has_next {
                        out.set_slot(k, None);
                        return Ok(out);
                    }
                    assert(views[i + 1] == args@[i + 1]@);
                    out.set_slot(k, Some(args[i + 1].clone()));
                    i += 2;
                },
                ArgKind::CreateBlankDisk => {
                    if args.len() - i <= 2 {
                        return Ok(out);
                    }
                    assert(views[i + 1] == args@[i + 1]@);
                    assert(views[i + 2] == args@[i + 2]@);
                    out.create_blank_disk = Some((args[i + 1].clone(), args[i + 2].clone()));
                    i += 3;
                },
                ArgKind::Plain => {
                    if out.rom_path.is_none() && !starts_with_dashes_exec(a.as_str()) {
                        out.rom_path = Some(a.clone());
                    }
                    i += 1;
                },
            }
        }
        Ok(out)
    }
}

} // verus!
