use hemu_gui::cli::{CliArgs, CliError, CliOption};

fn args(list: &[&str]) -> Vec<String> {
    list.iter().map(|s| s.to_string()).collect()
}

#[test]
fn no_arguments_give_defaults() {
    let a = CliArgs::parse_args(&[]).unwrap();
    assert!(a.rom_path.is_none());
    assert!(!a.show_help && !a.show_version && !a.benchmark && !a.no_gui);
    assert!(a.breakpoints.is_empty());
}

#[test]
fn flags_and_values() {
    let a = CliArgs::parse_args(&args(&[
        "--system", "nes", "--bios", "bios.bin", "-h", "--benchmark", "--no-gui", "--trace-instructions",
    ]))
    .unwrap();
    assert_eq!(a.system.as_deref(), Some("nes"));
    assert_eq!(a.bios_path.as_deref(), Some("bios.bin"));
    assert!(a.show_help && a.benchmark && a.no_gui && a.trace_instructions);
}

#[test]
fn first_positional_argument_is_the_rom() {
    let a = CliArgs::parse_args(&args(&["game.nes", "other.nes", "--unknown"])).unwrap();
    assert_eq!(a.rom_path.as_deref(), Some("game.nes"));
}

#[test]
fn addresses_in_hex_and_decimal() {
    let a = CliArgs::parse_args(&args(&[
        "--breakpoint", "0x8000", "-b", "32768", "-r", "0X2000", "-w", "8192", "--debug-dump-pc", "0xFFFF",
    ]))
    .unwrap();
    assert_eq!(a.breakpoints, vec![0x8000, 32768]);
    assert_eq!(a.read_breakpoints, vec![0x2000]);
    assert_eq!(a.write_breakpoints, vec![8192]);
    assert_eq!(a.debug_dump_pc, Some(0xFFFF));
}

#[test]
fn numbers_of_limits_and_cycles() {
    let a = CliArgs::parse_args(&args(&["--trace-limit", "100", "--debug-dump-cycles", "123456789012"]))
        .unwrap();
    assert_eq!(a.trace_limit, Some(100));
    assert_eq!(a.debug_dump_cycles, Some(123456789012));
}

#[test]
fn slots_and_blank_disk() {
    let a = CliArgs::parse_args(&args(&["--slot1", "a.img", "--slot3", "c.img", "--create-blank-disk", "d.img", "1.44M"]))
        .unwrap();
    assert_eq!(a.slot1.as_deref(), Some("a.img"));
    assert_eq!(a.slot3.as_deref(), Some("c.img"));
    assert_eq!(a.create_blank_disk, Some(("d.img".to_string(), "1.44M".to_string())));
}

#[test]
fn missing_value_is_an_error() {
    match CliArgs::parse_args(&args(&["--bios"])) {
        Err(e) => {
            assert!(matches!(e, CliError::MissingValue(CliOption::Bios)));
            assert_eq!(e.message(), "Error: --bios requires a file path.");
        }
        Ok(_) => panic!("a missing value must be refused"),
    }
}

#[test]
fn invalid_address_is_an_error() {
    match CliArgs::parse_args(&args(&["--breakpoint", "0xZZ"])) {
        Err(e) => {
            assert!(matches!(e, CliError::InvalidNumber(CliOption::Breakpoint)));
            assert_eq!(
                e.message(),
                "Error: --breakpoint requires a valid address (hex: 0x8000 or decimal: 32768)."
            );
        }
        Ok(_) => panic!("an invalid address must be refused"),
    }
}

#[test]
fn address_out_of_range_is_an_error() {
    assert!(CliArgs::parse_args(&args(&["--debug-dump-pc", "4294967296"])).is_err());
    assert!(CliArgs::parse_args(&args(&["--debug-dump-pc", "4294967295"])).is_ok());
}

#[test]
fn slot_without_value_is_cleared() {
    let a = CliArgs::parse_args(&args(&["--slot2"])).unwrap();
    assert!(a.slot2.is_none());
}

#[test]
fn log_options() {
    let a = CliArgs::parse_args(&args(&["--log-level", "debug", "--log-cpu", "trace", "--log-file", "x.log"])).unwrap();
    assert_eq!(a.log_level.as_deref(), Some("debug"));
    assert_eq!(a.log_cpu.as_deref(), Some("trace"));
    assert_eq!(a.log_file.as_deref(), Some("x.log"));
}
