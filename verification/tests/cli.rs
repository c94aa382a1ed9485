use pixelframe::cli::default_extension;
use pixelframe::cli::parse_args;
use pixelframe::cli::parse_mode;
use pixelframe::cli::usage_err;
use pixelframe::cli::Mode;

fn strings(args: &[&str]) -> Vec<String> {
    args.iter().map(|s| s.to_string()).collect()
}

#[test]
fn usage_message_text() {
    assert_eq!(
        usage_err("tool", "missing input file."),
        "USAGE: tool <-e|-d> <in.file> [out.file]\n\
         Modes:\n\
         -e: Encode bytes as color to png\n\
         -d: Decode png data back to bytes\n\
         ERROR: missing input file.\n"
    );
}

#[test]
fn usage_message_with_empty_parts() {
    assert_eq!(
        usage_err("", ""),
        "USAGE:  <-e|-d> <in.file> [out.file]\nModes:\n-e: Encode bytes as color to png\n-d: Decode png data back to bytes\nERROR: \n"
    );
}

#[test]
fn usage_message_has_five_lines() {
    let text = usage_err("./a.out", "invalid mode -x");
    assert_eq!(text.lines().count(), 5);
    assert!(text.starts_with("USAGE: ./a.out "));
    assert!(text.ends_with("ERROR: invalid mode -x\n"));
}

#[test]
fn mode_flags() {
    assert_eq!(parse_mode("-e"), Some(Mode::Encode));
    assert_eq!(parse_mode("-d"), Some(Mode::Decode));
    assert_eq!(parse_mode("-x"), None);
    assert_eq!(parse_mode(""), None);
    assert_eq!(parse_mode("-E"), None);
    assert_eq!(parse_mode("-e "), None);
    assert_eq!(parse_mode("e"), None);
}

#[test]
fn default_extensions() {
    assert_eq!(default_extension(Mode::Encode), "png");
    assert_eq!(default_extension(Mode::Decode), "bin");
}

#[test]
fn arguments_with_an_output_path() {
    let invocation = parse_args("tool", &strings(&["-e", "in.bin", "out.png"])).ok().unwrap();
    assert_eq!(invocation.mode, Mode::Encode);
    assert_eq!(invocation.input, "in.bin");
    assert_eq!(invocation.output, Some("out.png".to_string()));
}

#[test]
fn arguments_without_an_output_path() {
    let invocation = parse_args("tool", &strings(&["-d", "in.png"])).ok().unwrap();
    assert_eq!(invocation.mode, Mode::Decode);
    assert_eq!(invocation.input, "in.png");
    assert_eq!(invocation.output, None);
}

#[test]
fn further_arguments_are_ignored() {
    let invocation = parse_args("tool", &strings(&["-d", "a", "b", "c", "d"])).ok().unwrap();
    assert_eq!(invocation.mode, Mode::Decode);
    assert_eq!(invocation.input, "a");
    assert_eq!(invocation.output, Some("b".to_string()));
}

#[test]
fn no_arguments_at_all() {
    assert_eq!(
        parse_args("tool", &[]).err(),
        Some(usage_err("tool", "expected a mode and an input file."))
    );
}

#[test]
fn a_first_argument_that_is_no_mode() {
    assert_eq!(
        parse_args("tool", &strings(&["--encode", "in.bin"])).err(),
        Some(usage_err("tool", "invalid mode --encode"))
    );
    assert_eq!(
        parse_args("tool", &strings(&["in.bin"])).err(),
        Some(usage_err("tool", "invalid mode in.bin"))
    );
}

#[test]
fn a_mode_without_an_input_path() {
    assert_eq!(
        parse_args("tool", &strings(&["-e"])).err(),
        Some(usage_err("tool", "missing input file."))
    );
    assert_eq!(
        parse_args("tool", &strings(&["-d"])).err(),
        Some(usage_err("tool", "missing input file."))
    );
}

#[test]
fn usage_error_ends_in_the_reason() {
    let text = parse_args("prog", &strings(&["-q"])).err().unwrap();
    assert!(text.ends_with("ERROR: invalid mode -q\n"));
    assert!(text.starts_with("USAGE: prog <-e|-d> <in.file> [out.file]\n"));
}
