//! What the command line promises, stated over the arguments: each switch turns
//! its own setting on and nothing else, each option stores the argument after it
//! in its own setting, and a switch is on only where its argument was given.
use vstd::prelude::*;
use vstd::string::*;

use crate::cli::{
    apply_value, classify_arg, parse_from, set_slot, starts_with_dashes, ArgKind, CliArgsView, CliError,
    CliOption,
};
use crate::numbers::{parse_address, parse_unsigned};

verus! {

/// The argument "--help" or "-h" turns `show_help` on and changes nothing else.
pub proof fn lemma_switch_help(args: Seq<Seq<char>>, i: int, acc: CliArgsView)
    requires
        0 <= i < args.len(),
        args[i] == "--help"@ || args[i] == "-h"@,
    ensures
        parse_from(args, i, acc) == parse_from(args, i + 1, CliArgsView { show_help: true, ..acc }),
{
    reveal_strlit("--help");
    reveal_strlit("-h");
}

/// The argument "--version" or "-v" turns `show_version` on and changes nothing else.
pub proof fn lemma_switch_version(args: Seq<Seq<char>>, i: int, acc: CliArgsView)
    requires
        0 <= i < args.len(),
        args[i] == "--version"@ || args[i] == "-v"@,
    ensures
        parse_from(args, i, acc) == parse_from(args, i + 1, CliArgsView { show_version: true, ..acc }),
{
    reveal_strlit("--help");
    reveal_strlit("-h");
    reveal_strlit("--version");
    reveal_strlit("-v");
    assert("-v"@[1] != "-h"@[1]);
}

/// The argument "--benchmark" turns `benchmark` on and changes nothing else.
pub proof fn lemma_switch_benchmark(args: Seq<Seq<char>>, i: int, acc: CliArgsView)
    requires
        0 <= i < args.len(),
        args[i] == "--benchmark"@,
    ensures
        parse_from(args, i, acc) == parse_from(args, i + 1, CliArgsView { benchmark: true, ..acc }),
{
    reveal_strlit("--help");
    reveal_strlit("-h");
    reveal_strlit("--version");
    reveal_strlit("-v");
    reveal_strlit("--benchmark");
}

/// The argument "--no-gui" turns `no_gui` on and changes nothing else.
pub proof fn lemma_switch_no_gui(args: Seq<Seq<char>>, i: int, acc: CliArgsView)
    requires
        0 <= i < args.len(),
        args[i] == "--no-gui"@,
    ensures
        parse_from(args, i, acc) == parse_from(args, i + 1, CliArgsView { no_gui: true, ..acc }),
{
    reveal_strlit("--help");
    reveal_strlit("-h");
    reveal_strlit("--version");
    reveal_strlit("-v");
    reveal_strlit("--benchmark");
    reveal_strlit("--no-gui");
}

/// The argument "--trace-instructions" turns `trace_instructions` on and changes nothing else.
pub proof fn lemma_switch_trace_instructions(args: Seq<Seq<char>>, i: int, acc: CliArgsView)
    requires
        0 <= i < args.len(),
        args[i] == "--trace-instructions"@,
    ensures
        parse_from(args, i, acc) == parse_from(args, i + 1, CliArgsView { trace_instructions: true, ..acc }),
{
    reveal_strlit("--help");
    reveal_strlit("-h");
    reveal_strlit("--version");
    reveal_strlit("-v");
    reveal_strlit("--benchmark");
    reveal_strlit("--no-gui");
    reveal_strlit("--system");
    reveal_strlit("-S");
    reveal_strlit("--bios");
    reveal_strlit("--slot1");
    reveal_strlit("--slot2");
    reveal_strlit("--slot3");
    reveal_strlit("--slot4");
    reveal_strlit("--slot5");
    reveal_strlit("--create-blank-disk");
    reveal_strlit("--log-level");
    reveal_strlit("--log-cpu");
    reveal_strlit("--log-bus");
    reveal_strlit("--log-ppu");
    reveal_strlit("--log-apu");
    reveal_strlit("--log-interrupts");
    reveal_strlit("--log-stubs");
    reveal_strlit("--log-file");
    reveal_strlit("--debug-dump-pc");
    reveal_strlit("--debug-dump-cycles");
    reveal_strlit("--debug-dump-file");
    reveal_strlit("--trace-instructions");
}

/// The argument "--system" or "-S" stores the argument after it in `system`.
pub proof fn lemma_option_system(args: Seq<Seq<char>>, i: int, acc: CliArgsView)
    requires
        0 <= i,
        i + 1 < args.len(),
        args[i] == "--system"@ || args[i] == "-S"@,
    ensures
        parse_from(args, i, acc) == parse_from(
            args,
            i + 2,
            CliArgsView { system: Some(args[i + 1]), ..acc },
        ),
{
    reveal_strlit("--help");
    reveal_strlit("-h");
    reveal_strlit("--version");
    reveal_strlit("-v");
    reveal_strlit("--benchmark");
    reveal_strlit("--no-gui");
    reveal_strlit("--system");
    reveal_strlit("-S");
    assert("--system"@[2] != "--no-gui"@[2]);
    assert("-S"@[1] != "-h"@[1]);
    assert("-S"@[1] != "-v"@[1]);
}

/// The argument "--bios" stores the argument after it in `bios_path`.
pub proof fn lemma_option_bios(args: Seq<Seq<char>>, i: int, acc: CliArgsView)
    requires
        0 <= i,
        i + 1 < args.len(),
        args[i] == "--bios"@,
    ensures
        parse_from(args, i, acc) == parse_from(
            args,
            i + 2,
            CliArgsView { bios_path: Some(args[i + 1]), ..acc },
        ),
{
    reveal_strlit("--help");
    reveal_strlit("-h");
    reveal_strlit("--version");
    reveal_strlit("-v");
    reveal_strlit("--benchmark");
    reveal_strlit("--no-gui");
    reveal_strlit("--system");
    reveal_strlit("-S");
    reveal_strlit("--bios");
    assert("--bios"@[2] != "--help"@[2]);
}

/// The argument "--log-level" stores the argument after it in `log_level`.
pub proof fn lemma_option_log_level(args: Seq<Seq<char>>, i: int, acc: CliArgsView)
    requires
        0 <= i,
        i + 1 < args.len(),
        args[i] == "--log-level"@,
    ensures
        parse_from(args, i, acc) == parse_from(
            args,
            i + 2,
            CliArgsView { log_level: Some(args[i + 1]), ..acc },
        ),
{
    reveal_strlit("--help");
    reveal_strlit("-h");
    reveal_strlit("--version");
    reveal_strlit("-v");
    reveal_strlit("--benchmark");
    reveal_strlit("--no-gui");
    reveal_strlit("--system");
    reveal_strlit("-S");
    reveal_strlit("--bios");
    reveal_strlit("--slot1");
    reveal_strlit("--slot2");
    reveal_strlit("--slot3");
    reveal_strlit("--slot4");
    reveal_strlit("--slot5");
    reveal_strlit("--create-blank-disk");
    reveal_strlit("--log-level");
    assert("--log-level"@[2] != "--benchmark"@[2]);
}

/// The argument "--log-cpu" stores the argument after it in `log_cpu`.
pub proof fn lemma_option_log_cpu(args: Seq<Seq<char>>, i: int, acc: CliArgsView)
    requires
        0 <= i,
        i + 1 < args.len(),
        args[i] == "--log-cpu"@,
    ensures
        parse_from(args, i, acc) == parse_from(
            args,
            i + 2,
            CliArgsView { log_cpu: Some(args[i + 1]), ..acc },
        ),
{
    reveal_strlit("--help");
    reveal_strlit("-h");
    reveal_strlit("--version");
    reveal_strlit("-v");
    reveal_strlit("--benchmark");
    reveal_strlit("--no-gui");
    reveal_strlit("--system");
    reveal_strlit("-S");
    reveal_strlit("--bios");
    reveal_strlit("--slot1");
    reveal_strlit("--slot2");
    reveal_strlit("--slot3");
    reveal_strlit("--slot4");
    reveal_strlit("--slot5");
    reveal_strlit("--create-blank-disk");
    reveal_strlit("--log-level");
    reveal_strlit("--log-cpu");
    assert("--log-cpu"@[2] != "--version"@[2]);
}

/// The argument "--log-bus" stores the argument after it in `log_bus`.
pub proof fn lemma_option_log_bus(args: Seq<Seq<char>>, i: int, acc: CliArgsView)
    requires
        0 <= i,
        i + 1 < args.len(),
        args[i] == "--log-bus"@,
    ensures
        parse_from(args, i, acc) == parse_from(
            args,
            i + 2,
            CliArgsView { log_bus: Some(args[i + 1]), ..acc },
        ),
{
    reveal_strlit("--help");
    reveal_strlit("-h");
    reveal_strlit("--version");
    reveal_strlit("-v");
    reveal_strlit("--benchmark");
    reveal_strlit("--no-gui");
    reveal_strlit("--system");
    reveal_strlit("-S");
    reveal_strlit("--bios");
    reveal_strlit("--slot1");
    reveal_strlit("--slot2");
    reveal_strlit("--slot3");
    reveal_strlit("--slot4");
    reveal_strlit("--slot5");
    reveal_strlit("--create-blank-disk");
    reveal_strlit("--log-level");
    reveal_strlit("--log-cpu");
    reveal_strlit("--log-bus");
    assert("--log-bus"@[2] != "--version"@[2]);
    assert("--log-bus"@[6] != "--log-cpu"@[6]);
}

/// The argument "--log-ppu" stores the argument after it in `log_ppu`.
pub proof fn lemma_option_log_ppu(args: Seq<Seq<char>>, i: int, acc: CliArgsView)
    requires
        0 <= i,
        i + 1 < args.len(),
        args[i] == "--log-ppu"@,
    ensures
        parse_from(args, i, acc) == parse_from(
            args,
            i + 2,
            CliArgsView { log_ppu: Some(args[i + 1]), ..acc },
        ),
{
    reveal_strlit("--help");
    reveal_strlit("-h");
    reveal_strlit("--version");
    reveal_strlit("-v");
    reveal_strlit("--benchmark");
    reveal_strlit("--no-gui");
    reveal_strlit("--system");
    reveal_strlit("-S");
    reveal_strlit("--bios");
    reveal_strlit("--slot1");
    reveal_strlit("--slot2");
    reveal_strlit("--slot3");
    reveal_strlit("--slot4");
    reveal_strlit("--slot5");
    reveal_strlit("--create-blank-disk");
    reveal_strlit("--log-level");
    reveal_strlit("--log-cpu");
    reveal_strlit("--log-bus");
    reveal_strlit("--log-ppu");
    assert("--log-ppu"@[2] != "--version"@[2]);
    assert("--log-ppu"@[6] != "--log-cpu"@[6]);
    assert("--log-ppu"@[6] != "--log-bus"@[6]);
}

/// The argument "--log-apu" stores the argument after it in `log_apu`.
pub proof fn lemma_option_log_apu(args: Seq<Seq<char>>, i: int, acc: CliArgsView)
    requires
        0 <= i,
        i + 1 < args.len(),
        args[i] == "--log-apu"@,
    ensures
        parse_from(args, i, acc) == parse_from(
            args,
            i + 2,
            CliArgsView { log_apu: Some(args[i + 1]), ..acc },
        ),
{
    reveal_strlit("--help");
    reveal_strlit("-h");
    reveal_strlit("--version");
    reveal_strlit("-v");
    reveal_strlit("--benchmark");
    reveal_strlit("--no-gui");
    reveal_strlit("--system");
    reveal_strlit("-S");
    reveal_strlit("--bios");
    reveal_strlit("--slot1");
    reveal_strlit("--slot2");
    reveal_strlit("--slot3");
    reveal_strlit("--slot4");
    reveal_strlit("--slot5");
    reveal_strlit("--create-blank-disk");
    reveal_strlit("--log-level");
    reveal_strlit("--log-cpu");
    reveal_strlit("--log-bus");
    reveal_strlit("--log-ppu");
    reveal_strlit("--log-apu");
    assert("--log-apu"@[2] != "--version"@[2]);
    assert("--log-apu"@[6] != "--log-cpu"@[6]);
    assert("--log-apu"@[6] != "--log-bus"@[6]);
    assert("--log-apu"@[6] != "--log-ppu"@[6]);
}

/// The argument "--log-interrupts" stores the argument after it in `log_interrupts`.
pub proof fn lemma_option_log_interrupts(args: Seq<Seq<char>>, i: int, acc: CliArgsView)
    requires
        0 <= i,
        i + 1 < args.len(),
        args[i] == "--log-interrupts"@,
    ensures
        parse_from(args, i, acc) == parse_from(
            args,
            i + 2,
            CliArgsView { log_interrupts: Some(args[i + 1]), ..acc },
        ),
{
    reveal_strlit("--help");
    reveal_strlit("-h");
    reveal_strlit("--version");
    reveal_strlit("-v");
    reveal_strlit("--benchmark");
    reveal_strlit("--no-gui");
    reveal_strlit("--system");
    reveal_strlit("-S");
    reveal_strlit("--bios");
    reveal_strlit("--slot1");
    reveal_strlit("--slot2");
    reveal_strlit("--slot3");
    reveal_strlit("--slot4");
    reveal_strlit("--slot5");
    reveal_strlit("--create-blank-disk");
    reveal_strlit("--log-level");
    reveal_strlit("--log-cpu");
    reveal_strlit("--log-bus");
    reveal_strlit("--log-ppu");
    reveal_strlit("--log-apu");
    reveal_strlit("--log-interrupts");
}

/// The argument "--log-stubs" stores the argument after it in `log_stubs`.
pub proof fn lemma_option_log_stubs(args: Seq<Seq<char>>, i: int, acc: CliArgsView)
    requires
        0 <= i,
        i + 1 < args.len(),
        args[i] == "--log-stubs"@,
    ensures
        parse_from(args, i, acc) == parse_from(
            args,
            i + 2,
            CliArgsView { log_stubs: Some(args[i + 1]), ..acc },
        ),
{
    reveal_strlit("--help");
    reveal_strlit("-h");
    reveal_strlit("--version");
    reveal_strlit("-v");
    reveal_strlit("--benchmark");
    reveal_strlit("--no-gui");
    reveal_strlit("--system");
    reveal_strlit("-S");
    reveal_strlit("--bios");
    reveal_strlit("--slot1");
    reveal_strlit("--slot2");
    reveal_strlit("--slot3");
    reveal_strlit("--slot4");
    reveal_strlit("--slot5");
    reveal_strlit("--create-blank-disk");
    reveal_strlit("--log-level");
    reveal_strlit("--log-cpu");
    reveal_strlit("--log-bus");
    reveal_strlit("--log-ppu");
    reveal_strlit("--log-apu");
    reveal_strlit("--log-interrupts");
    reveal_strlit("--log-stubs");
    assert("--log-stubs"@[2] != "--benchmark"@[2]);
    assert("--log-stubs"@[6] != "--log-level"@[6]);
}

/// The argument "--log-file" stores the argument after it in `log_file`.
pub proof fn lemma_option_log_file(args: Seq<Seq<char>>, i: int, acc: CliArgsView)
    requires
        0 <= i,
        i + 1 < args.len(),
        args[i] == "--log-file"@,
    ensures
        parse_from(args, i, acc) == parse_from(
            args,
            i + 2,
            CliArgsView { log_file: Some(args[i + 1]), ..acc },
        ),
{
    reveal_strlit("--help");
    reveal_strlit("-h");
    reveal_strlit("--version");
    reveal_strlit("-v");
    reveal_strlit("--benchmark");
    reveal_strlit("--no-gui");
    reveal_strlit("--system");
    reveal_strlit("-S");
    reveal_strlit("--bios");
    reveal_strlit("--slot1");
    reveal_strlit("--slot2");
    reveal_strlit("--slot3");
    reveal_strlit("--slot4");
    reveal_strlit("--slot5");
    reveal_strlit("--create-blank-disk");
    reveal_strlit("--log-level");
    reveal_strlit("--log-cpu");
    reveal_strlit("--log-bus");
    reveal_strlit("--log-ppu");
    reveal_strlit("--log-apu");
    reveal_strlit("--log-interrupts");
    reveal_strlit("--log-stubs");
    reveal_strlit("--log-file");
}

/// The argument "--debug-dump-file" stores the argument after it in `debug_dump_file`.
pub proof fn lemma_option_debug_dump_file(args: Seq<Seq<char>>, i: int, acc: CliArgsView)
    requires
        0 <= i,
        i + 1 < args.len(),
        args[i] == "--debug-dump-file"@,
    ensures
        parse_from(args, i, acc) == parse_from(
            args,
            i + 2,
            CliArgsView { debug_dump_file: Some(args[i + 1]), ..acc },
        ),
{
    reveal_strlit("--help");
    reveal_strlit("-h");
    reveal_strlit("--version");
    reveal_strlit("-v");
    reveal_strlit("--benchmark");
    reveal_strlit("--no-gui");
    reveal_strlit("--system");
    reveal_strlit("-S");
    reveal_strlit("--bios");
    reveal_strlit("--slot1");
    reveal_strlit("--slot2");
    reveal_strlit("--slot3");
    reveal_strlit("--slot4");
    reveal_strlit("--slot5");
    reveal_strlit("--create-blank-disk");
    reveal_strlit("--log-level");
    reveal_strlit("--log-cpu");
    reveal_strlit("--log-bus");
    reveal_strlit("--log-ppu");
    reveal_strlit("--log-apu");
    reveal_strlit("--log-interrupts");
    reveal_strlit("--log-stubs");
    reveal_strlit("--log-file");
    reveal_strlit("--debug-dump-pc");
    reveal_strlit("--debug-dump-cycles");
    reveal_strlit("--debug-dump-file");
}

/// The argument "--trace-dump-file" stores the argument after it in `trace_dump_file`.
pub proof fn lemma_option_trace_dump_file(args: Seq<Seq<char>>, i: int, acc: CliArgsView)
    requires
        0 <= i,
        i + 1 < args.len(),
        args[i] == "--trace-dump-file"@,
    ensures
        parse_from(args, i, acc) == parse_from(
            args,
            i + 2,
            CliArgsView { trace_dump_file: Some(args[i + 1]), ..acc },
        ),
{
    reveal_strlit("--help");
    reveal_strlit("-h");
    reveal_strlit("--version");
    reveal_strlit("-v");
    reveal_strlit("--benchmark");
    reveal_strlit("--no-gui");
    reveal_strlit("--system");
    reveal_strlit("-S");
    reveal_strlit("--bios");
    reveal_strlit("--slot1");
    reveal_strlit("--slot2");
    reveal_strlit("--slot3");
    reveal_strlit("--slot4");
    reveal_strlit("--slot5");
    reveal_strlit("--create-blank-disk");
    reveal_strlit("--log-level");
    reveal_strlit("--log-cpu");
    reveal_strlit("--log-bus");
    reveal_strlit("--log-ppu");
    reveal_strlit("--log-apu");
    reveal_strlit("--log-interrupts");
    reveal_strlit("--log-stubs");
    reveal_strlit("--log-file");
    reveal_strlit("--debug-dump-pc");
    reveal_strlit("--debug-dump-cycles");
    reveal_strlit("--debug-dump-file");
    reveal_strlit("--trace-instructions");
    reveal_strlit("--trace-limit");
    reveal_strlit("--trace-dump-file");
    assert("--trace-dump-file"@[2] != "--debug-dump-file"@[2]);
}

/// The argument "--slot1" stores the argument after it in `slot1`.
pub proof fn lemma_option_slot1(args: Seq<Seq<char>>, i: int, acc: CliArgsView)
    requires
        0 <= i,
        i + 1 < args.len(),
        args[i] == "--slot1"@,
    ensures
        parse_from(args, i, acc) == parse_from(
            args,
            i + 2,
            CliArgsView { slot1: Some(args[i + 1]), ..acc },
        ),
{
    reveal_strlit("--help");
    reveal_strlit("-h");
    reveal_strlit("--version");
    reveal_strlit("-v");
    reveal_strlit("--benchmark");
    reveal_strlit("--no-gui");
    reveal_strlit("--system");
    reveal_strlit("-S");
    reveal_strlit("--bios");
    reveal_strlit("--slot1");
}

/// The argument "--slot2" stores the argument after it in `slot2`.
pub proof fn lemma_option_slot2(args: Seq<Seq<char>>, i: int, acc: CliArgsView)
    requires
        0 <= i,
        i + 1 < args.len(),
        args[i] == "--slot2"@,
    ensures
        parse_from(args, i, acc) == parse_from(
            args,
            i + 2,
            CliArgsView { slot2: Some(args[i + 1]), ..acc },
        ),
{
    reveal_strlit("--help");
    reveal_strlit("-h");
    reveal_strlit("--version");
    reveal_strlit("-v");
    reveal_strlit("--benchmark");
    reveal_strlit("--no-gui");
    reveal_strlit("--system");
    reveal_strlit("-S");
    reveal_strlit("--bios");
    reveal_strlit("--slot1");
    reveal_strlit("--slot2");
    assert("--slot2"@[6] != "--slot1"@[6]);
}

/// The argument "--slot3" stores the argument after it in `slot3`.
pub proof fn lemma_option_slot3(args: Seq<Seq<char>>, i: int, acc: CliArgsView)
    requires
        0 <= i,
        i + 1 < args.len(),
        args[i] == "--slot3"@,
    ensures
        parse_from(args, i, acc) == parse_from(
            args,
            i + 2,
            CliArgsView { slot3: Some(args[i + 1]), ..acc },
        ),
{
    reveal_strlit("--help");
    reveal_strlit("-h");
    reveal_strlit("--version");
    reveal_strlit("-v");
    reveal_strlit("--benchmark");
    reveal_strlit("--no-gui");
    reveal_strlit("--system");
    reveal_strlit("-S");
    reveal_strlit("--bios");
    reveal_strlit("--slot1");
    reveal_strlit("--slot2");
    reveal_strlit("--slot3");
    assert("--slot3"@[6] != "--slot1"@[6]);
    assert("--slot3"@[6] != "--slot2"@[6]);
}

/// The argument "--slot4" stores the argument after it in `slot4`.
pub proof fn lemma_option_slot4(args: Seq<Seq<char>>, i: int, acc: CliArgsView)
    requires
        0 <= i,
        i + 1 < args.len(),
        args[i] == "--slot4"@,
    ensures
        parse_from(args, i, acc) == parse_from(
            args,
            i + 2,
            CliArgsView { slot4: Some(args[i + 1]), ..acc },
        ),
{
    reveal_strlit("--help");
    reveal_strlit("-h");
    reveal_strlit("--version");
    reveal_strlit("-v");
    reveal_strlit("--benchmark");
    reveal_strlit("--no-gui");
    reveal_strlit("--system");
    reveal_strlit("-S");
    reveal_strlit("--bios");
    reveal_strlit("--slot1");
    reveal_strlit("--slot2");
    reveal_strlit("--slot3");
    reveal_strlit("--slot4");
    assert("--slot4"@[6] != "--slot1"@[6]);
    assert("--slot4"@[6] != "--slot2"@[6]);
    assert("--slot4"@[6] != "--slot3"@[6]);
}

/// The argument "--slot5" stores the argument after it in `slot5`.
pub proof fn lemma_option_slot5(args: Seq<Seq<char>>, i: int, acc: CliArgsView)
    requires
        0 <= i,
        i + 1 < args.len(),
        args[i] == "--slot5"@,
    ensures
        parse_from(args, i, acc) == parse_from(
            args,
            i + 2,
            CliArgsView { slot5: Some(args[i + 1]), ..acc },
        ),
{
    reveal_strlit("--help");
    reveal_strlit("-h");
    reveal_strlit("--version");
    reveal_strlit("-v");
    reveal_strlit("--benchmark");
    reveal_strlit("--no-gui");
    reveal_strlit("--system");
    reveal_strlit("-S");
    reveal_strlit("--bios");
    reveal_strlit("--slot1");
    reveal_strlit("--slot2");
    reveal_strlit("--slot3");
    reveal_strlit("--slot4");
    reveal_strlit("--slot5");
    assert("--slot5"@[6] != "--slot1"@[6]);
    assert("--slot5"@[6] != "--slot2"@[6]);
    assert("--slot5"@[6] != "--slot3"@[6]);
    assert("--slot5"@[6] != "--slot4"@[6]);
}

/// A switch is on after reading `args[i..]` only where it was on before or its
/// own argument occurs there: --help or -h for help, --version or -v for the
/// version, --benchmark, --no-gui and --trace-instructions for theirs.
pub proof fn lemma_switches_need_their_argument(args: Seq<Seq<char>>, i: int, acc: CliArgsView)
    ensures
        parse_from(args, i, acc) matches Ok(v) ==> {
            &&& v.show_help ==> acc.show_help || exists|j: int|
                i <= j < args.len() && (#[trigger] args[j] == "--help"@ || args[j] == "-h"@)
            &&& v.show_version ==> acc.show_version || exists|j: int|
                i <= j < args.len() && (#[trigger] args[j] == "--version"@ || args[j] == "-v"@)
            &&& v.benchmark ==> acc.benchmark || exists|j: int|
                i <= j < args.len() && #[trigger] args[j] == "--benchmark"@
            &&& v.no_gui ==> acc.no_gui || exists|j: int|
                i <= j < args.len() && #[trigger] args[j] == "--no-gui"@
            &&& v.trace_instructions ==> acc.trace_instructions || exists|j: int|
                i <= j < args.len() && #[trigger] args[j] == "--trace-instructions"@
        },
    decreases args.len() - i,
{
    if 0 <= i < args.len() {
        let a = args[i];
        let has_next = i + 1 < args.len();
        match classify_arg(a) {
            ArgKind::Help => {
                lemma_switches_need_their_argument(args, i + 1, CliArgsView { show_help: true, ..acc });
            },
            ArgKind::Version => {
                lemma_switches_need_their_argument(
                    args,
                    i + 1,
                    CliArgsView { show_version: true, ..acc },
                );
            },
            ArgKind::Benchmark => {
                lemma_switches_need_their_argument(args, i + 1, CliArgsView { benchmark: true, ..acc });
            },
            ArgKind::NoGui => {
                lemma_switches_need_their_argument(args, i + 1, CliArgsView { no_gui: true, ..acc });
            },
            ArgKind::TraceInstructions => {
                lemma_switches_need_their_argument(
                    args,
                    i + 1,
                    CliArgsView { trace_instructions: true, ..acc },
                );
            },
            ArgKind::WithValue(opt) => {
                if has_next {
                    match apply_value(acc, opt, args[i + 1]) {
                        Ok(next) => {
                            lemma_switches_need_their_argument(args, i + 2, next);
                        },
                        Err(_) => {},
                    }
                }
            },
            ArgKind::Slot(k) => {
                if has_next {
                    lemma_switches_need_their_argument(args, i + 2, set_slot(acc, k, Some(args[i + 1])));
                }
            },
            ArgKind::CreateBlankDisk => {
                if i + 2 < args.len() {
                    lemma_switches_need_their_argument(
                        args,
                        i + 3,
                        CliArgsView { create_blank_disk: Some((args[i + 1], args[i + 2])), ..acc },
                    );
                }
            },
            ArgKind::Plain => {
                lemma_switches_need_their_argument(
                    args,
                    i + 1,
                    if acc.rom_path is None && !starts_with_dashes(a) {
                        CliArgsView { rom_path: Some(a), ..acc }
                    } else {
                        acc
                    },
                );
            },
        }
    }
}

/// --system or -S as the last argument, without its value, is refused as a missing value.
pub proof fn lemma_missing_value_system(args: Seq<Seq<char>>, acc: CliArgsView)
    requires
        args.len() > 0,
        args[args.len() - 1] == "--system"@ || args[args.len() - 1] == "-S"@,
    ensures
        parse_from(args, args.len() - 1, acc) == Err::<CliArgsView, CliError>(
            CliError::MissingValue(CliOption::System),
        ),
{
    reveal_strlit("--help");
    reveal_strlit("-h");
    reveal_strlit("--version");
    reveal_strlit("-v");
    reveal_strlit("--benchmark");
    reveal_strlit("--no-gui");
    reveal_strlit("--system");
    reveal_strlit("-S");
    assert("--system"@[2] != "--no-gui"@[2]);
    assert("-S"@[1] != "-h"@[1]);
    assert("-S"@[1] != "-v"@[1]);
}

/// --bios as the last argument, without its value, is refused as a missing value.
pub proof fn lemma_missing_value_bios(args: Seq<Seq<char>>, acc: CliArgsView)
    requires
        args.len() > 0,
        args[args.len() - 1] == "--bios"@,
    ensures
        parse_from(args, args.len() - 1, acc) == Err::<CliArgsView, CliError>(
            CliError::MissingValue(CliOption::Bios),
        ),
{
    reveal_strlit("--help");
    reveal_strlit("-h");
    reveal_strlit("--version");
    reveal_strlit("-v");
    reveal_strlit("--benchmark");
    reveal_strlit("--no-gui");
    reveal_strlit("--system");
    reveal_strlit("-S");
    reveal_strlit("--bios");
    assert("--bios"@[2] != "--help"@[2]);
}

/// --log-level as the last argument, without its value, is refused as a missing value.
pub proof fn lemma_missing_value_log_level(args: Seq<Seq<char>>, acc: CliArgsView)
    requires
        args.len() > 0,
        args[args.len() - 1] == "--log-level"@,
    ensures
        parse_from(args, args.len() - 1, acc) == Err::<CliArgsView, CliError>(
            CliError::MissingValue(CliOption::LogLevel),
        ),
{
    reveal_strlit("--help");
    reveal_strlit("-h");
    reveal_strlit("--version");
    reveal_strlit("-v");
    reveal_strlit("--benchmark");
    reveal_strlit("--no-gui");
    reveal_strlit("--system");
    reveal_strlit("-S");
    reveal_strlit("--bios");
    reveal_strlit("--slot1");
    reveal_strlit("--slot2");
    reveal_strlit("--slot3");
    reveal_strlit("--slot4");
    reveal_strlit("--slot5");
    reveal_strlit("--create-blank-disk");
    reveal_strlit("--log-level");
    assert("--log-level"@[2] != "--benchmark"@[2]);
}

/// --log-cpu as the last argument, without its value, is refused as a missing value.
pub proof fn lemma_missing_value_log_cpu(args: Seq<Seq<char>>, acc: CliArgsView)
    requires
        args.len() > 0,
        args[args.len() - 1] == "--log-cpu"@,
    ensures
        parse_from(args, args.len() - 1, acc) == Err::<CliArgsView, CliError>(
            CliError::MissingValue(CliOption::LogCpu),
        ),
{
    reveal_strlit("--help");
    reveal_strlit("-h");
    reveal_strlit("--version");
    reveal_strlit("-v");
    reveal_strlit("--benchmark");
    reveal_strlit("--no-gui");
    reveal_strlit("--system");
    reveal_strlit("-S");
    reveal_strlit("--bios");
    reveal_strlit("--slot1");
    reveal_strlit("--slot2");
    reveal_strlit("--slot3");
    reveal_strlit("--slot4");
    reveal_strlit("--slot5");
    reveal_strlit("--create-blank-disk");
    reveal_strlit("--log-level");
    reveal_strlit("--log-cpu");
    assert("--log-cpu"@[2] != "--version"@[2]);
}

/// --log-bus as the last argument, without its value, is refused as a missing value.
pub proof fn lemma_missing_value_log_bus(args: Seq<Seq<char>>, acc: CliArgsView)
    requires
        args.len() > 0,
        args[args.len() - 1] == "--log-bus"@,
    ensures
        parse_from(args, args.len() - 1, acc) == Err::<CliArgsView, CliError>(
            CliError::MissingValue(CliOption::LogBus),
        ),
{
    reveal_strlit("--help");
    reveal_strlit("-h");
    reveal_strlit("--version");
    reveal_strlit("-v");
    reveal_strlit("--benchmark");
    reveal_strlit("--no-gui");
    reveal_strlit("--system");
    reveal_strlit("-S");
    reveal_strlit("--bios");
    reveal_strlit("--slot1");
    reveal_strlit("--slot2");
    reveal_strlit("--slot3");
    reveal_strlit("--slot4");
    reveal_strlit("--slot5");
    reveal_strlit("--create-blank-disk");
    reveal_strlit("--log-level");
    reveal_strlit("--log-cpu");
    reveal_strlit("--log-bus");
    assert("--log-bus"@[2] != "--version"@[2]);
    assert("--log-bus"@[6] != "--log-cpu"@[6]);
}

/// --log-ppu as the last argument, without its value, is refused as a missing value.
pub proof fn lemma_missing_value_log_ppu(args: Seq<Seq<char>>, acc: CliArgsView)
    requires
        args.len() > 0,
        args[args.len() - 1] == "--log-ppu"@,
    ensures
        parse_from(args, args.len() - 1, acc) == Err::<CliArgsView, CliError>(
            CliError::MissingValue(CliOption::LogPpu),
        ),
{
    reveal_strlit("--help");
    reveal_strlit("-h");
    reveal_strlit("--version");
    reveal_strlit("-v");
    reveal_strlit("--benchmark");
    reveal_strlit("--no-gui");
    reveal_strlit("--system");
    reveal_strlit("-S");
    reveal_strlit("--bios");
    reveal_strlit("--slot1");
    reveal_strlit("--slot2");
    reveal_strlit("--slot3");
    reveal_strlit("--slot4");
    reveal_strlit("--slot5");
    reveal_strlit("--create-blank-disk");
    reveal_strlit("--log-level");
    reveal_strlit("--log-cpu");
    reveal_strlit("--log-bus");
    reveal_strlit("--log-ppu");
    assert("--log-ppu"@[2] != "--version"@[2]);
    assert("--log-ppu"@[6] != "--log-cpu"@[6]);
    assert("--log-ppu"@[6] != "--log-bus"@[6]);
}

/// --log-apu as the last argument, without its value, is refused as a missing value.
pub proof fn lemma_missing_value_log_apu(args: Seq<Seq<char>>, acc: CliArgsView)
    requires
        args.len() > 0,
        args[args.len() - 1] == "--log-apu"@,
    ensures
        parse_from(args, args.len() - 1, acc) == Err::<CliArgsView, CliError>(
            CliError::MissingValue(CliOption::LogApu),
        ),
{
    reveal_strlit("--help");
    reveal_strlit("-h");
    reveal_strlit("--version");
    reveal_strlit("-v");
    reveal_strlit("--benchmark");
    reveal_strlit("--no-gui");
    reveal_strlit("--system");
    reveal_strlit("-S");
    reveal_strlit("--bios");
    reveal_strlit("--slot1");
    reveal_strlit("--slot2");
    reveal_strlit("--slot3");
    reveal_strlit("--slot4");
    reveal_strlit("--slot5");
    reveal_strlit("--create-blank-disk");
    reveal_strlit("--log-level");
    reveal_strlit("--log-cpu");
    reveal_strlit("--log-bus");
    reveal_strlit("--log-ppu");
    reveal_strlit("--log-apu");
    assert("--log-apu"@[2] != "--version"@[2]);
    assert("--log-apu"@[6] != "--log-cpu"@[6]);
    assert("--log-apu"@[6] != "--log-bus"@[6]);
    assert("--log-apu"@[6] != "--log-ppu"@[6]);
}

/// --log-interrupts as the last argument, without its value, is refused as a missing value.
pub proof fn lemma_missing_value_log_interrupts(args: Seq<Seq<char>>, acc: CliArgsView)
    requires
        args.len() > 0,
        args[args.len() - 1] == "--log-interrupts"@,
    ensures
        parse_from(args, args.len() - 1, acc) == Err::<CliArgsView, CliError>(
            CliError::MissingValue(CliOption::LogInterrupts),
        ),
{
    reveal_strlit("--help");
    reveal_strlit("-h");
    reveal_strlit("--version");
    reveal_strlit("-v");
    reveal_strlit("--benchmark");
    reveal_strlit("--no-gui");
    reveal_strlit("--system");
    reveal_strlit("-S");
    reveal_strlit("--bios");
    reveal_strlit("--slot1");
    reveal_strlit("--slot2");
    reveal_strlit("--slot3");
    reveal_strlit("--slot4");
    reveal_strlit("--slot5");
    reveal_strlit("--create-blank-disk");
    reveal_strlit("--log-level");
    reveal_strlit("--log-cpu");
    reveal_strlit("--log-bus");
    reveal_strlit("--log-ppu");
    reveal_strlit("--log-apu");
    reveal_strlit("--log-interrupts");
}

/// --log-stubs as the last argument, without its value, is refused as a missing value.
pub proof fn lemma_missing_value_log_stubs(args: Seq<Seq<char>>, acc: CliArgsView)
    requires
        args.len() > 0,
        args[args.len() - 1] == "--log-stubs"@,
    ensures
        parse_from(args, args.len() - 1, acc) == Err::<CliArgsView, CliError>(
            CliError::MissingValue(CliOption::LogStubs),
        ),
{
    reveal_strlit("--help");
    reveal_strlit("-h");
    reveal_strlit("--version");
    reveal_strlit("-v");
    reveal_strlit("--benchmark");
    reveal_strlit("--no-gui");
    reveal_strlit("--system");
    reveal_strlit("-S");
    reveal_strlit("--bios");
    reveal_strlit("--slot1");
    reveal_strlit("--slot2");
    reveal_strlit("--slot3");
    reveal_strlit("--slot4");
    reveal_strlit("--slot5");
    reveal_strlit("--create-blank-disk");
    reveal_strlit("--log-level");
    reveal_strlit("--log-cpu");
    reveal_strlit("--log-bus");
    reveal_strlit("--log-ppu");
    reveal_strlit("--log-apu");
    reveal_strlit("--log-interrupts");
    reveal_strlit("--log-stubs");
    assert("--log-stubs"@[2] != "--benchmark"@[2]);
    assert("--log-stubs"@[6] != "--log-level"@[6]);
}

/// --log-file as the last argument, without its value, is refused as a missing value.
pub proof fn lemma_missing_value_log_file(args: Seq<Seq<char>>, acc: CliArgsView)
    requires
        args.len() > 0,
        args[args.len() - 1] == "--log-file"@,
    ensures
        parse_from(args, args.len() - 1, acc) == Err::<CliArgsView, CliError>(
            CliError::MissingValue(CliOption::LogFile),
        ),
{
    reveal_strlit("--help");
    reveal_strlit("-h");
    reveal_strlit("--version");
    reveal_strlit("-v");
    reveal_strlit("--benchmark");
    reveal_strlit("--no-gui");
    reveal_strlit("--system");
    reveal_strlit("-S");
    reveal_strlit("--bios");
    reveal_strlit("--slot1");
    reveal_strlit("--slot2");
    reveal_strlit("--slot3");
    reveal_strlit("--slot4");
    reveal_strlit("--slot5");
    reveal_strlit("--create-blank-disk");
    reveal_strlit("--log-level");
    reveal_strlit("--log-cpu");
    reveal_strlit("--log-bus");
    reveal_strlit("--log-ppu");
    reveal_strlit("--log-apu");
    reveal_strlit("--log-interrupts");
    reveal_strlit("--log-stubs");
    reveal_strlit("--log-file");
}

/// --debug-dump-pc as the last argument, without its value, is refused as a missing value.
pub proof fn lemma_missing_value_debug_dump_pc(args: Seq<Seq<char>>, acc: CliArgsView)
    requires
        args.len() > 0,
        args[args.len() - 1] == "--debug-dump-pc"@,
    ensures
        parse_from(args, args.len() - 1, acc) == Err::<CliArgsView, CliError>(
            CliError::MissingValue(CliOption::DebugDumpPc),
        ),
{
    reveal_strlit("--help");
    reveal_strlit("-h");
    reveal_strlit("--version");
    reveal_strlit("-v");
    reveal_strlit("--benchmark");
    reveal_strlit("--no-gui");
    reveal_strlit("--system");
    reveal_strlit("-S");
    reveal_strlit("--bios");
    reveal_strlit("--slot1");
    reveal_strlit("--slot2");
    reveal_strlit("--slot3");
    reveal_strlit("--slot4");
    reveal_strlit("--slot5");
    reveal_strlit("--create-blank-disk");
    reveal_strlit("--log-level");
    reveal_strlit("--log-cpu");
    reveal_strlit("--log-bus");
    reveal_strlit("--log-ppu");
    reveal_strlit("--log-apu");
    reveal_strlit("--log-interrupts");
    reveal_strlit("--log-stubs");
    reveal_strlit("--log-file");
    reveal_strlit("--debug-dump-pc");
}

/// --debug-dump-cycles as the last argument, without its value, is refused as a missing value.
pub proof fn lemma_missing_value_debug_dump_cycles(args: Seq<Seq<char>>, acc: CliArgsView)
    requires
        args.len() > 0,
        args[args.len() - 1] == "--debug-dump-cycles"@,
    ensures
        parse_from(args, args.len() - 1, acc) == Err::<CliArgsView, CliError>(
            CliError::MissingValue(CliOption::DebugDumpCycles),
        ),
{
    reveal_strlit("--help");
    reveal_strlit("-h");
    reveal_strlit("--version");
    reveal_strlit("-v");
    reveal_strlit("--benchmark");
    reveal_strlit("--no-gui");
    reveal_strlit("--system");
    reveal_strlit("-S");
    reveal_strlit("--bios");
    reveal_strlit("--slot1");
    reveal_strlit("--slot2");
    reveal_strlit("--slot3");
    reveal_strlit("--slot4");
    reveal_strlit("--slot5");
    reveal_strlit("--create-blank-disk");
    reveal_strlit("--log-level");
    reveal_strlit("--log-cpu");
    reveal_strlit("--log-bus");
    reveal_strlit("--log-ppu");
    reveal_strlit("--log-apu");
    reveal_strlit("--log-interrupts");
    reveal_strlit("--log-stubs");
    reveal_strlit("--log-file");
    reveal_strlit("--debug-dump-pc");
    reveal_strlit("--debug-dump-cycles");
    assert("--debug-dump-cycles"@[2] != "--create-blank-disk"@[2]);
}

/// --debug-dump-file as the last argument, without its value, is refused as a missing value.
pub proof fn lemma_missing_value_debug_dump_file(args: Seq<Seq<char>>, acc: CliArgsView)
    requires
        args.len() > 0,
        args[args.len() - 1] == "--debug-dump-file"@,
    ensures
        parse_from(args, args.len() - 1, acc) == Err::<CliArgsView, CliError>(
            CliError::MissingValue(CliOption::DebugDumpFile),
        ),
{
    reveal_strlit("--help");
    reveal_strlit("-h");
    reveal_strlit("--version");
    reveal_strlit("-v");
    reveal_strlit("--benchmark");
    reveal_strlit("--no-gui");
    reveal_strlit("--system");
    reveal_strlit("-S");
    reveal_strlit("--bios");
    reveal_strlit("--slot1");
    reveal_strlit("--slot2");
    reveal_strlit("--slot3");
    reveal_strlit("--slot4");
    reveal_strlit("--slot5");
    reveal_strlit("--create-blank-disk");
    reveal_strlit("--log-level");
    reveal_strlit("--log-cpu");
    reveal_strlit("--log-bus");
    reveal_strlit("--log-ppu");
    reveal_strlit("--log-apu");
    reveal_strlit("--log-interrupts");
    reveal_strlit("--log-stubs");
    reveal_strlit("--log-file");
    reveal_strlit("--debug-dump-pc");
    reveal_strlit("--debug-dump-cycles");
    reveal_strlit("--debug-dump-file");
}

/// --trace-limit as the last argument, without its value, is refused as a missing value.
pub proof fn lemma_missing_value_trace_limit(args: Seq<Seq<char>>, acc: CliArgsView)
    requires
        args.len() > 0,
        args[args.len() - 1] == "--trace-limit"@,
    ensures
        parse_from(args, args.len() - 1, acc) == Err::<CliArgsView, CliError>(
            CliError::MissingValue(CliOption::TraceLimit),
        ),
{
    reveal_strlit("--help");
    reveal_strlit("-h");
    reveal_strlit("--version");
    reveal_strlit("-v");
    reveal_strlit("--benchmark");
    reveal_strlit("--no-gui");
    reveal_strlit("--system");
    reveal_strlit("-S");
    reveal_strlit("--bios");
    reveal_strlit("--slot1");
    reveal_strlit("--slot2");
    reveal_strlit("--slot3");
    reveal_strlit("--slot4");
    reveal_strlit("--slot5");
    reveal_strlit("--create-blank-disk");
    reveal_strlit("--log-level");
    reveal_strlit("--log-cpu");
    reveal_strlit("--log-bus");
    reveal_strlit("--log-ppu");
    reveal_strlit("--log-apu");
    reveal_strlit("--log-interrupts");
    reveal_strlit("--log-stubs");
    reveal_strlit("--log-file");
    reveal_strlit("--debug-dump-pc");
    reveal_strlit("--debug-dump-cycles");
    reveal_strlit("--debug-dump-file");
    reveal_strlit("--trace-instructions");
    reveal_strlit("--trace-limit");
}

/// --trace-dump-file as the last argument, without its value, is refused as a missing value.
pub proof fn lemma_missing_value_trace_dump_file(args: Seq<Seq<char>>, acc: CliArgsView)
    requires
        args.len() > 0,
        args[args.len() - 1] == "--trace-dump-file"@,
    ensures
        parse_from(args, args.len() - 1, acc) == Err::<CliArgsView, CliError>(
            CliError::MissingValue(CliOption::TraceDumpFile),
        ),
{
    reveal_strlit("--help");
    reveal_strlit("-h");
    reveal_strlit("--version");
    reveal_strlit("-v");
    reveal_strlit("--benchmark");
    reveal_strlit("--no-gui");
    reveal_strlit("--system");
    reveal_strlit("-S");
    reveal_strlit("--bios");
    reveal_strlit("--slot1");
    reveal_strlit("--slot2");
    reveal_strlit("--slot3");
    reveal_strlit("--slot4");
    reveal_strlit("--slot5");
    reveal_strlit("--create-blank-disk");
    reveal_strlit("--log-level");
    reveal_strlit("--log-cpu");
    reveal_strlit("--log-bus");
    reveal_strlit("--log-ppu");
    reveal_strlit("--log-apu");
    reveal_strlit("--log-interrupts");
    reveal_strlit("--log-stubs");
    reveal_strlit("--log-file");
    reveal_strlit("--debug-dump-pc");
    reveal_strlit("--debug-dump-cycles");
    reveal_strlit("--debug-dump-file");
    reveal_strlit("--trace-instructions");
    reveal_strlit("--trace-limit");
    reveal_strlit("--trace-dump-file");
    assert("--trace-dump-file"@[2] != "--debug-dump-file"@[2]);
}

/// --breakpoint or -b as the last argument, without its value, is refused as a missing value.
pub proof fn lemma_missing_value_breakpoint(args: Seq<Seq<char>>, acc: CliArgsView)
    requires
        args.len() > 0,
        args[args.len() - 1] == "--breakpoint"@ || args[args.len() - 1] == "-b"@,
    ensures
        parse_from(args, args.len() - 1, acc) == Err::<CliArgsView, CliError>(
            CliError::MissingValue(CliOption::Breakpoint),
        ),
{
    reveal_strlit("--help");
    reveal_strlit("-h");
    reveal_strlit("--version");
    reveal_strlit("-v");
    reveal_strlit("--benchmark");
    reveal_strlit("--no-gui");
    reveal_strlit("--system");
    reveal_strlit("-S");
    reveal_strlit("--bios");
    reveal_strlit("--slot1");
    reveal_strlit("--slot2");
    reveal_strlit("--slot3");
    reveal_strlit("--slot4");
    reveal_strlit("--slot5");
    reveal_strlit("--create-blank-disk");
    reveal_strlit("--log-level");
    reveal_strlit("--log-cpu");
    reveal_strlit("--log-bus");
    reveal_strlit("--log-ppu");
    reveal_strlit("--log-apu");
    reveal_strlit("--log-interrupts");
    reveal_strlit("--log-stubs");
    reveal_strlit("--log-file");
    reveal_strlit("--debug-dump-pc");
    reveal_strlit("--debug-dump-cycles");
    reveal_strlit("--debug-dump-file");
    reveal_strlit("--trace-instructions");
    reveal_strlit("--trace-limit");
    reveal_strlit("--trace-dump-file");
    reveal_strlit("--breakpoint");
    reveal_strlit("-b");
    assert("-b"@[1] != "-h"@[1]);
    assert("-b"@[1] != "-v"@[1]);
    assert("-b"@[1] != "-S"@[1]);
}

/// --read-breakpoint or -r as the last argument, without its value, is refused as a missing value.
pub proof fn lemma_missing_value_read_breakpoint(args: Seq<Seq<char>>, acc: CliArgsView)
    requires
        args.len() > 0,
        args[args.len() - 1] == "--read-breakpoint"@ || args[args.len() - 1] == "-r"@,
    ensures
        parse_from(args, args.len() - 1, acc) == Err::<CliArgsView, CliError>(
            CliError::MissingValue(CliOption::ReadBreakpoint),
        ),
{
    reveal_strlit("--help");
    reveal_strlit("-h");
    reveal_strlit("--version");
    reveal_strlit("-v");
    reveal_strlit("--benchmark");
    reveal_strlit("--no-gui");
    reveal_strlit("--system");
    reveal_strlit("-S");
    reveal_strlit("--bios");
    reveal_strlit("--slot1");
    reveal_strlit("--slot2");
    reveal_strlit("--slot3");
    reveal_strlit("--slot4");
    reveal_strlit("--slot5");
    reveal_strlit("--create-blank-disk");
    reveal_strlit("--log-level");
    reveal_strlit("--log-cpu");
    reveal_strlit("--log-bus");
    reveal_strlit("--log-ppu");
    reveal_strlit("--log-apu");
    reveal_strlit("--log-interrupts");
    reveal_strlit("--log-stubs");
    reveal_strlit("--log-file");
    reveal_strlit("--debug-dump-pc");
    reveal_strlit("--debug-dump-cycles");
    reveal_strlit("--debug-dump-file");
    reveal_strlit("--trace-instructions");
    reveal_strlit("--trace-limit");
    reveal_strlit("--trace-dump-file");
    reveal_strlit("--breakpoint");
    reveal_strlit("-b");
    reveal_strlit("--read-breakpoint");
    reveal_strlit("-r");
    assert("--read-breakpoint"@[2] != "--debug-dump-file"@[2]);
    assert("--read-breakpoint"@[2] != "--trace-dump-file"@[2]);
    assert("-r"@[1] != "-h"@[1]);
    assert("-r"@[1] != "-v"@[1]);
    assert("-r"@[1] != "-S"@[1]);
    assert("-r"@[1] != "-b"@[1]);
}

/// --write-breakpoint or -w as the last argument, without its value, is refused as a missing value.
pub proof fn lemma_missing_value_write_breakpoint(args: Seq<Seq<char>>, acc: CliArgsView)
    requires
        args.len() > 0,
        args[args.len() - 1] == "--write-breakpoint"@ || args[args.len() - 1] == "-w"@,
    ensures
        parse_from(args, args.len() - 1, acc) == Err::<CliArgsView, CliError>(
            CliError::MissingValue(CliOption::WriteBreakpoint),
        ),
{
    reveal_strlit("--help");
    reveal_strlit("-h");
    reveal_strlit("--version");
    reveal_strlit("-v");
    reveal_strlit("--benchmark");
    reveal_strlit("--no-gui");
    reveal_strlit("--system");
    reveal_strlit("-S");
    reveal_strlit("--bios");
    reveal_strlit("--slot1");
    reveal_strlit("--slot2");
    reveal_strlit("--slot3");
    reveal_strlit("--slot4");
    reveal_strlit("--slot5");
    reveal_strlit("--create-blank-disk");
    reveal_strlit("--log-level");
    reveal_strlit("--log-cpu");
    reveal_strlit("--log-bus");
    reveal_strlit("--log-ppu");
    reveal_strlit("--log-apu");
    reveal_strlit("--log-interrupts");
    reveal_strlit("--log-stubs");
    reveal_strlit("--log-file");
    reveal_strlit("--debug-dump-pc");
    reveal_strlit("--debug-dump-cycles");
    reveal_strlit("--debug-dump-file");
    reveal_strlit("--trace-instructions");
    reveal_strlit("--trace-limit");
    reveal_strlit("--trace-dump-file");
    reveal_strlit("--breakpoint");
    reveal_strlit("-b");
    reveal_strlit("--read-breakpoint");
    reveal_strlit("-r");
    reveal_strlit("--write-breakpoint");
    reveal_strlit("-w");
    assert("-w"@[1] != "-h"@[1]);
    assert("-w"@[1] != "-v"@[1]);
    assert("-w"@[1] != "-S"@[1]);
    assert("-w"@[1] != "-b"@[1]);
    assert("-w"@[1] != "-r"@[1]);
}

/// --debug-dump-pc takes a 32-bit address (decimal, or hex after 0x or $); a malformed value is refused.
pub proof fn lemma_number_debug_dump_pc(args: Seq<Seq<char>>, i: int, acc: CliArgsView)
    requires
        0 <= i,
        i + 1 < args.len(),
        args[i] == "--debug-dump-pc"@,
    ensures
        parse_from(args, i, acc) == match parse_address(args[i + 1]) {
            Some(n) => parse_from(args, i + 2, CliArgsView { debug_dump_pc: Some(n as u32), ..acc }),
            None => Err(CliError::InvalidNumber(CliOption::DebugDumpPc)),
        },
{
    reveal_strlit("--help");
    reveal_strlit("-h");
    reveal_strlit("--version");
    reveal_strlit("-v");
    reveal_strlit("--benchmark");
    reveal_strlit("--no-gui");
    reveal_strlit("--system");
    reveal_strlit("-S");
    reveal_strlit("--bios");
    reveal_strlit("--slot1");
    reveal_strlit("--slot2");
    reveal_strlit("--slot3");
    reveal_strlit("--slot4");
    reveal_strlit("--slot5");
    reveal_strlit("--create-blank-disk");
    reveal_strlit("--log-level");
    reveal_strlit("--log-cpu");
    reveal_strlit("--log-bus");
    reveal_strlit("--log-ppu");
    reveal_strlit("--log-apu");
    reveal_strlit("--log-interrupts");
    reveal_strlit("--log-stubs");
    reveal_strlit("--log-file");
    reveal_strlit("--debug-dump-pc");
}

/// --debug-dump-cycles takes a decimal number that fits in 64 bits; a malformed value is refused.
pub proof fn lemma_number_debug_dump_cycles(args: Seq<Seq<char>>, i: int, acc: CliArgsView)
    requires
        0 <= i,
        i + 1 < args.len(),
        args[i] == "--debug-dump-cycles"@,
    ensures
        parse_from(args, i, acc) == match parse_unsigned(args[i + 1], 10, u64::MAX as nat) {
            Some(n) => parse_from(args, i + 2, CliArgsView { debug_dump_cycles: Some(n as u64), ..acc }),
            None => Err(CliError::InvalidNumber(CliOption::DebugDumpCycles)),
        },
{
    reveal_strlit("--help");
    reveal_strlit("-h");
    reveal_strlit("--version");
    reveal_strlit("-v");
    reveal_strlit("--benchmark");
    reveal_strlit("--no-gui");
    reveal_strlit("--system");
    reveal_strlit("-S");
    reveal_strlit("--bios");
    reveal_strlit("--slot1");
    reveal_strlit("--slot2");
    reveal_strlit("--slot3");
    reveal_strlit("--slot4");
    reveal_strlit("--slot5");
    reveal_strlit("--create-blank-disk");
    reveal_strlit("--log-level");
    reveal_strlit("--log-cpu");
    reveal_strlit("--log-bus");
    reveal_strlit("--log-ppu");
    reveal_strlit("--log-apu");
    reveal_strlit("--log-interrupts");
    reveal_strlit("--log-stubs");
    reveal_strlit("--log-file");
    reveal_strlit("--debug-dump-pc");
    reveal_strlit("--debug-dump-cycles");
    assert("--debug-dump-cycles"@[2] != "--create-blank-disk"@[2]);
}

/// --trace-limit takes a decimal number that fits in a usize; a malformed value is refused.
pub proof fn lemma_number_trace_limit(args: Seq<Seq<char>>, i: int, acc: CliArgsView)
    requires
        0 <= i,
        i + 1 < args.len(),
        args[i] == "--trace-limit"@,
    ensures
        parse_from(args, i, acc) == match parse_unsigned(args[i + 1], 10, usize::MAX as nat) {
            Some(n) => parse_from(args, i + 2, CliArgsView { trace_limit: Some(n as usize), ..acc }),
            None => Err(CliError::InvalidNumber(CliOption::TraceLimit)),
        },
{
    reveal_strlit("--help");
    reveal_strlit("-h");
    reveal_strlit("--version");
    reveal_strlit("-v");
    reveal_strlit("--benchmark");
    reveal_strlit("--no-gui");
    reveal_strlit("--system");
    reveal_strlit("-S");
    reveal_strlit("--bios");
    reveal_strlit("--slot1");
    reveal_strlit("--slot2");
    reveal_strlit("--slot3");
    reveal_strlit("--slot4");
    reveal_strlit("--slot5");
    reveal_strlit("--create-blank-disk");
    reveal_strlit("--log-level");
    reveal_strlit("--log-cpu");
    reveal_strlit("--log-bus");
    reveal_strlit("--log-ppu");
    reveal_strlit("--log-apu");
    reveal_strlit("--log-interrupts");
    reveal_strlit("--log-stubs");
    reveal_strlit("--log-file");
    reveal_strlit("--debug-dump-pc");
    reveal_strlit("--debug-dump-cycles");
    reveal_strlit("--debug-dump-file");
    reveal_strlit("--trace-instructions");
    reveal_strlit("--trace-limit");
}

/// --breakpoint or -b takes an address, added to the breakpoints; a malformed value is refused.
pub proof fn lemma_number_breakpoint(args: Seq<Seq<char>>, i: int, acc: CliArgsView)
    requires
        0 <= i,
        i + 1 < args.len(),
        args[i] == "--breakpoint"@ || args[i] == "-b"@,
    ensures
        parse_from(args, i, acc) == match parse_address(args[i + 1]) {
            Some(n) => parse_from(args, i + 2, CliArgsView { breakpoints: acc.breakpoints.push(n as u32), ..acc }),
            None => Err(CliError::InvalidNumber(CliOption::Breakpoint)),
        },
{
    reveal_strlit("--help");
    reveal_strlit("-h");
    reveal_strlit("--version");
    reveal_strlit("-v");
    reveal_strlit("--benchmark");
    reveal_strlit("--no-gui");
    reveal_strlit("--system");
    reveal_strlit("-S");
    reveal_strlit("--bios");
    reveal_strlit("--slot1");
    reveal_strlit("--slot2");
    reveal_strlit("--slot3");
    reveal_strlit("--slot4");
    reveal_strlit("--slot5");
    reveal_strlit("--create-blank-disk");
    reveal_strlit("--log-level");
    reveal_strlit("--log-cpu");
    reveal_strlit("--log-bus");
    reveal_strlit("--log-ppu");
    reveal_strlit("--log-apu");
    reveal_strlit("--log-interrupts");
    reveal_strlit("--log-stubs");
    reveal_strlit("--log-file");
    reveal_strlit("--debug-dump-pc");
    reveal_strlit("--debug-dump-cycles");
    reveal_strlit("--debug-dump-file");
    reveal_strlit("--trace-instructions");
    reveal_strlit("--trace-limit");
    reveal_strlit("--trace-dump-file");
    reveal_strlit("--breakpoint");
    reveal_strlit("-b");
    assert("-b"@[1] != "-h"@[1]);
    assert("-b"@[1] != "-v"@[1]);
    assert("-b"@[1] != "-S"@[1]);
}

/// --read-breakpoint or -r takes an address, added to the read breakpoints; a malformed value is refused.
pub proof fn lemma_number_read_breakpoint(args: Seq<Seq<char>>, i: int, acc: CliArgsView)
    requires
        0 <= i,
        i + 1 < args.len(),
        args[i] == "--read-breakpoint"@ || args[i] == "-r"@,
    ensures
        parse_from(args, i, acc) == match parse_address(args[i + 1]) {
            Some(n) => parse_from(args, i + 2, CliArgsView { read_breakpoints: acc.read_breakpoints.push(n as u32), ..acc }),
            None => Err(CliError::InvalidNumber(CliOption::ReadBreakpoint)),
        },
{
    reveal_strlit("--help");
    reveal_strlit("-h");
    reveal_strlit("--version");
    reveal_strlit("-v");
    reveal_strlit("--benchmark");
    reveal_strlit("--no-gui");
    reveal_strlit("--system");
    reveal_strlit("-S");
    reveal_strlit("--bios");
    reveal_strlit("--slot1");
    reveal_strlit("--slot2");
    reveal_strlit("--slot3");
    reveal_strlit("--slot4");
    reveal_strlit("--slot5");
    reveal_strlit("--create-blank-disk");
    reveal_strlit("--log-level");
    reveal_strlit("--log-cpu");
    reveal_strlit("--log-bus");
    reveal_strlit("--log-ppu");
    reveal_strlit("--log-apu");
    reveal_strlit("--log-interrupts");
    reveal_strlit("--log-stubs");
    reveal_strlit("--log-file");
    reveal_strlit("--debug-dump-pc");
    reveal_strlit("--debug-dump-cycles");
    reveal_strlit("--debug-dump-file");
    reveal_strlit("--trace-instructions");
    reveal_strlit("--trace-limit");
    reveal_strlit("--trace-dump-file");
    reveal_strlit("--breakpoint");
    reveal_strlit("-b");
    reveal_strlit("--read-breakpoint");
    reveal_strlit("-r");
    assert("--read-breakpoint"@[2] != "--debug-dump-file"@[2]);
    assert("--read-breakpoint"@[2] != "--trace-dump-file"@[2]);
    assert("-r"@[1] != "-h"@[1]);
    assert("-r"@[1] != "-v"@[1]);
    assert("-r"@[1] != "-S"@[1]);
    assert("-r"@[1] != "-b"@[1]);
}

/// --write-breakpoint or -w takes an address, added to the write breakpoints; a malformed value is refused.
pub proof fn lemma_number_write_breakpoint(args: Seq<Seq<char>>, i: int, acc: CliArgsView)
    requires
        0 <= i,
        i + 1 < args.len(),
        args[i] == "--write-breakpoint"@ || args[i] == "-w"@,
    ensures
        parse_from(args, i, acc) == match parse_address(args[i + 1]) {
            Some(n) => parse_from(args, i + 2, CliArgsView { write_breakpoints: acc.write_breakpoints.push(n as u32), ..acc }),
            None => Err(CliError::InvalidNumber(CliOption::WriteBreakpoint)),
        },
{
    reveal_strlit("--help");
    reveal_strlit("-h");
    reveal_strlit("--version");
    reveal_strlit("-v");
    reveal_strlit("--benchmark");
    reveal_strlit("--no-gui");
    reveal_strlit("--system");
    reveal_strlit("-S");
    reveal_strlit("--bios");
    reveal_strlit("--slot1");
    reveal_strlit("--slot2");
    reveal_strlit("--slot3");
    reveal_strlit("--slot4");
    reveal_strlit("--slot5");
    reveal_strlit("--create-blank-disk");
    reveal_strlit("--log-level");
    reveal_strlit("--log-cpu");
    reveal_strlit("--log-bus");
    reveal_strlit("--log-ppu");
    reveal_strlit("--log-apu");
    reveal_strlit("--log-interrupts");
    reveal_strlit("--log-stubs");
    reveal_strlit("--log-file");
    reveal_strlit("--debug-dump-pc");
    reveal_strlit("--debug-dump-cycles");
    reveal_strlit("--debug-dump-file");
    reveal_strlit("--trace-instructions");
    reveal_strlit("--trace-limit");
    reveal_strlit("--trace-dump-file");
    reveal_strlit("--breakpoint");
    reveal_strlit("-b");
    reveal_strlit("--read-breakpoint");
    reveal_strlit("-r");
    reveal_strlit("--write-breakpoint");
    reveal_strlit("-w");
    assert("-w"@[1] != "-h"@[1]);
    assert("-w"@[1] != "-v"@[1]);
    assert("-w"@[1] != "-S"@[1]);
    assert("-w"@[1] != "-b"@[1]);
    assert("-w"@[1] != "-r"@[1]);
}

/// An argument that does not start with '-' names the ROM or project file where
/// none is named yet, and is passed over otherwise.
pub proof fn lemma_rom_path(args: Seq<Seq<char>>, i: int, acc: CliArgsView)
    requires
        0 <= i < args.len(),
        args[i].len() > 0,
        args[i][0] != '-',
    ensures
        parse_from(args, i, acc) == parse_from(
            args,
            i + 1,
            if acc.rom_path is None {
                CliArgsView { rom_path: Some(args[i]), ..acc }
            } else {
                acc
            },
        ),
{
    reveal_strlit("--help");
    reveal_strlit("-h");
    reveal_strlit("--version");
    reveal_strlit("-v");
    reveal_strlit("--benchmark");
    reveal_strlit("--no-gui");
    reveal_strlit("--system");
    reveal_strlit("-S");
    reveal_strlit("--bios");
    reveal_strlit("--slot1");
    reveal_strlit("--slot2");
    reveal_strlit("--slot3");
    reveal_strlit("--slot4");
    reveal_strlit("--slot5");
    reveal_strlit("--create-blank-disk");
    reveal_strlit("--log-level");
    reveal_strlit("--log-cpu");
    reveal_strlit("--log-bus");
    reveal_strlit("--log-ppu");
    reveal_strlit("--log-apu");
    reveal_strlit("--log-interrupts");
    reveal_strlit("--log-stubs");
    reveal_strlit("--log-file");
    reveal_strlit("--debug-dump-pc");
    reveal_strlit("--debug-dump-cycles");
    reveal_strlit("--debug-dump-file");
    reveal_strlit("--trace-instructions");
    reveal_strlit("--trace-limit");
    reveal_strlit("--trace-dump-file");
    reveal_strlit("--breakpoint");
    reveal_strlit("-b");
    reveal_strlit("--read-breakpoint");
    reveal_strlit("-r");
    reveal_strlit("--write-breakpoint");
    reveal_strlit("-w");
}

/// --create-blank-disk takes the two arguments after it as the path and the format.
pub proof fn lemma_create_blank_disk(args: Seq<Seq<char>>, i: int, acc: CliArgsView)
    requires
        0 <= i,
        i + 2 < args.len(),
        args[i] == "--create-blank-disk"@,
    ensures
        parse_from(args, i, acc) == parse_from(
            args,
            i + 3,
            CliArgsView { create_blank_disk: Some((args[i + 1], args[i + 2])), ..acc },
        ),
{
    reveal_strlit("--help");
    reveal_strlit("-h");
    reveal_strlit("--version");
    reveal_strlit("-v");
    reveal_strlit("--benchmark");
    reveal_strlit("--no-gui");
    reveal_strlit("--system");
    reveal_strlit("-S");
    reveal_strlit("--bios");
    reveal_strlit("--slot1");
    reveal_strlit("--slot2");
    reveal_strlit("--slot3");
    reveal_strlit("--slot4");
    reveal_strlit("--slot5");
    reveal_strlit("--create-blank-disk");
}

} // verus!
