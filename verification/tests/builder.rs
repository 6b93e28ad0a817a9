use reqenv::build_command;
use reqenv::parse::parse_memory;
use reqenv::parse::MemoryParseError;
use reqenv::render::core_list;
use reqenv::render::u64_to_dec;
use reqenv::select_cpus;
use reqenv::Options;
use reqenv::SizePostfix;

fn cmd(tokens: &[&str]) -> Vec<String> {
    tokens.iter().map(|t| t.to_string()).collect()
}

fn no_options() -> Options {
    Options { cpus: None, cpu_speed: None, memory: None }
}

#[test]
fn no_options_yields_only_fixed_flags() {
    let command = cmd(&["echo", "hello"]);
    let built = build_command(2, no_options(), &command);
    assert_eq!(built.program, "systemd-run");
    assert_eq!(built.arguments, cmd(&["--quiet", "--scope", "echo", "hello"]));
}

#[test]
fn command_is_preserved_verbatim_at_the_tail() {
    let command = cmd(&["cargo", "build", "--release"]);
    let opts = Options {
        cpus: Some(2),
        cpu_speed: Some(75),
        memory: Some((512, SizePostfix::Mega)),
    };
    let built = build_command(8, opts, &command);
    let tail = &built.arguments[built.arguments.len() - command.len()..];
    assert_eq!(tail, &command[..]);
}

#[test]
fn four_of_eight_cores_pins_the_highest_four() {
    let command = cmd(&["true"]);
    let opts = Options { cpus: Some(4), cpu_speed: None, memory: None };
    let built = build_command(8, opts, &command);
    assert_eq!(
        built.arguments,
        cmd(&["--quiet", "--scope", "-p", "CPUQuota=400%", "taskset", "-c", "4,5,6,7", "true"])
    );
}

#[test]
fn requested_cores_are_clamped_to_the_available_ones() {
    let command = cmd(&["true"]);
    let opts = Options { cpus: Some(10), cpu_speed: None, memory: None };
    let built = build_command(4, opts, &command);
    assert_eq!(
        built.arguments,
        cmd(&["--quiet", "--scope", "-p", "CPUQuota=400%", "taskset", "-c", "0,1,2,3", "true"])
    );
}

#[test]
fn speed_alone_scales_by_all_available_cores() {
    let command = cmd(&["sleep", "1"]);
    let opts = Options { cpus: None, cpu_speed: Some(50), memory: None };
    let built = build_command(6, opts, &command);
    assert_eq!(
        built.arguments,
        cmd(&["--quiet", "--scope", "-p", "CPUQuota=300%", "sleep", "1"])
    );
    assert!(!built.arguments.iter().any(|a| a == "taskset"));
}

#[test]
fn cores_and_speed_multiply_into_the_quota() {
    let command = cmd(&["true"]);
    let opts = Options { cpus: Some(3), cpu_speed: Some(50), memory: None };
    let built = build_command(8, opts, &command);
    assert_eq!(
        built.arguments,
        cmd(&["--quiet", "--scope", "-p", "CPUQuota=150%", "taskset", "-c", "5,6,7", "true"])
    );
}

#[test]
fn memory_limit_is_rendered_with_its_unit_letter() {
    let command = cmd(&["true"]);
    let opts = Options { cpus: None, cpu_speed: None, memory: Some((512, SizePostfix::Mega)) };
    let built = build_command(4, opts, &command);
    assert_eq!(
        built.arguments,
        cmd(&["--quiet", "--scope", "-p", "MemoryMax=512M", "true"])
    );
}

#[test]
fn memory_limit_without_unit_passes_the_raw_count_through() {
    let command = cmd(&["true"]);
    let opts = Options { cpus: None, cpu_speed: None, memory: Some((1024, SizePostfix::Bytes)) };
    let built = build_command(4, opts, &command);
    assert_eq!(
        built.arguments,
        cmd(&["--quiet", "--scope", "-p", "MemoryMax=1024", "true"])
    );
}

#[test]
fn single_core_machine_uses_core_zero() {
    let command = cmd(&["true"]);
    let opts = Options { cpus: Some(1), cpu_speed: None, memory: None };
    let built = build_command(1, opts, &command);
    assert_eq!(
        built.arguments,
        cmd(&["--quiet", "--scope", "-p", "CPUQuota=100%", "taskset", "-c", "0", "true"])
    );
}

#[test]
fn all_options_together_keep_the_token_order() {
    let command = cmd(&["make", "-j8"]);
    let opts = Options {
        cpus: Some(2),
        cpu_speed: Some(80),
        memory: Some((4, SizePostfix::Giga)),
    };
    let built = build_command(8, opts, &command);
    assert_eq!(
        built.arguments,
        cmd(&[
            "--quiet",
            "--scope",
            "-p",
            "MemoryMax=4G",
            "-p",
            "CPUQuota=160%",
            "taskset",
            "-c",
            "6,7",
            "make",
            "-j8",
        ])
    );
}

#[test]
fn building_twice_yields_identical_output() {
    let command = cmd(&["true"]);
    let opts = Options {
        cpus: Some(2),
        cpu_speed: Some(50),
        memory: Some((1, SizePostfix::Tera)),
    };
    let first = build_command(8, opts, &command);
    let second = build_command(8, opts, &command);
    assert_eq!(first.program, second.program);
    assert_eq!(first.arguments, second.arguments);
}

#[test]
fn selected_range_has_the_used_length_and_ends_at_the_core_count() {
    let range = select_cpus(8, 3);
    assert_eq!(range.start, 5);
    assert_eq!(range.end, 8);
    assert_eq!(range.end - range.start, 3);
    let full = select_cpus(4, 4);
    assert_eq!(full.start, 0);
    assert_eq!(full.end, 4);
}

#[test]
fn postfix_letters() {
    assert_eq!(SizePostfix::Bytes.to_string(), "");
    assert_eq!(SizePostfix::Kilo.to_string(), "K");
    assert_eq!(SizePostfix::Mega.to_string(), "M");
    assert_eq!(SizePostfix::Giga.to_string(), "G");
    assert_eq!(SizePostfix::Tera.to_string(), "T");
}

#[test]
fn decimal_rendering() {
    assert_eq!(u64_to_dec(0), "0");
    assert_eq!(u64_to_dec(7), "7");
    assert_eq!(u64_to_dec(10), "10");
    assert_eq!(u64_to_dec(400), "400");
    assert_eq!(u64_to_dec(4294967295), "4294967295");
}

#[test]
fn core_list_rendering() {
    assert_eq!(core_list(0, 1), "0");
    assert_eq!(core_list(4, 8), "4,5,6,7");
    assert_eq!(core_list(254, 255), "254");
}

#[test]
fn parse_memory_accepts_each_unit() {
    assert!(matches!(parse_memory("512M"), Ok((512, SizePostfix::Mega))));
    assert!(matches!(parse_memory("7K"), Ok((7, SizePostfix::Kilo))));
    assert!(matches!(parse_memory("8G"), Ok((8, SizePostfix::Giga))));
    assert!(matches!(parse_memory("9T"), Ok((9, SizePostfix::Tera))));
    assert!(matches!(parse_memory("123"), Ok((123, SizePostfix::Bytes))));
}

#[test]
fn parse_memory_rejects_bad_magnitudes() {
    assert_eq!(parse_memory("").unwrap_err(), MemoryParseError::NotANumber);
    assert_eq!(parse_memory("K").unwrap_err(), MemoryParseError::NotANumber);
    assert_eq!(parse_memory("1.5G").unwrap_err(), MemoryParseError::NotANumber);
    assert_eq!(parse_memory("12x").unwrap_err(), MemoryParseError::NotANumber);
    assert_eq!(parse_memory("-1K").unwrap_err(), MemoryParseError::NotANumber);
    assert_eq!(parse_memory("12KK").unwrap_err(), MemoryParseError::NotANumber);
}

#[test]
fn parse_memory_rejects_values_over_32_bits() {
    assert!(matches!(parse_memory("4294967295"), Ok((4294967295, SizePostfix::Bytes))));
    assert_eq!(parse_memory("4294967296").unwrap_err(), MemoryParseError::TooLarge);
    assert_eq!(parse_memory("99999999999K").unwrap_err(), MemoryParseError::TooLarge);
}
