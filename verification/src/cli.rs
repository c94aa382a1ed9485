//! The command surface: modes, arguments, and the usage message.

use vstd::prelude::*;
use vstd::string::StringExecFns;

verus! {

/// What the tool is asked to do.
#[derive(Clone, Copy, Debug, PartialEq, Eq, Structural)]
pub enum Mode {
    /// Bytes to image.
    Encode,
    /// Image to bytes.
    Decode,
}

/// A well-formed command line: the mode, the input path, and the output
/// path where one is given.
pub struct Invocation {
    pub mode: Mode,
    pub input: String,
    pub output: Option<String>,
}

/// The usage message for a tool called `name`, ending in a line that gives
/// the reason `msg`.
pub open spec fn usage_text(name: Seq<char>, msg: Seq<char>) -> Seq<char> {
    "USAGE: "@ + name + " <-e|-d> <in.file> [out.file]\n"@ + "Modes:\n"@
        + "-e: Encode bytes as color to png\n"@ + "-d: Decode png data back to bytes\n"@
        + "ERROR: "@ + msg + "\n"@
}

/// The mode that a flag names: `-e` encodes, `-d` decodes, nothing else is
/// a mode.
pub open spec fn mode_of(flag: Seq<char>) -> Option<Mode> {
    if flag == "-e"@ {
        Some(Mode::Encode)
    } else if flag == "-d"@ {
        Some(Mode::Decode)
    } else {
        None
    }
}

/// The extension of the output path where none is given.
pub open spec fn default_extension_text(mode: Mode) -> Seq<char> {
    match mode {
        Mode::Encode => "png"@,
        Mode::Decode => "bin"@,
    }
}

/// What is wrong with the arguments behind the tool's name, if anything:
/// no argument at all, a first one that is no mode, or no input path.
pub open spec fn usage_problem(args: Seq<String>) -> Option<Seq<char>> {
    if args.len() == 0 {
        Some("expected a mode and an input file."@)
    } else if mode_of(args[0]@) is None {
        Some("invalid mode "@ + args[0]@)
    } else if args.len() == 1 {
        Some("missing input file."@)
    } else {
        None
    }
}

/// The output path that the arguments give, if any.
pub open spec fn given_output(args: Seq<String>) -> Option<Seq<char>> {
    if args.len() > 2 {
        Some(args[2]@)
    } else {
        None
    }
}

/// The characters of an optional string.
pub open spec fn text_of(s: Option<String>) -> Option<Seq<char>> {
    match s {
        Some(text) => Some(text@),
        None => None,
    }
}

/// The usage message for a tool called `name`, with the reason `msg` in its
/// last line.
pub fn usage_err(name: &str, msg: &str) -> (text: String)
    ensures
        text@ == usage_text(name@, msg@),
{
    let mut s = String::from_str("USAGE: ");
    s.append(name);
    s.append(" <-e|-d> <in.file> [out.file]\n");
    s.append("Modes:\n");
    s.append("-e: Encode bytes as color to png\n");
    s.append("-d: Decode png data back to bytes\n");
    s.append("ERROR: ");
    s.append(msg);
    s.append("\n");
    s
}

/// Reads a mode flag.
pub fn parse_mode(flag: &str) -> (mode: Option<Mode>)
    ensures
        mode == mode_of(flag@),
{
    let given = String::from_str(flag);
    if given == String::from_str("-e") {
        Some(Mode::Encode)
    } else if given == String::from_str("-d") {
        Some(Mode::Decode)
    } else {
        None
    }
}

/// The extension that replaces the input path's own where no output path
/// is given: `png` for an image, `bin` for recovered bytes.
pub fn default_extension(mode: Mode) -> (ext: &'static str)
    ensures
        ext@ == default_extension_text(mode),
{
    match mode {
        Mode::Encode => "png",
        Mode::Decode => "bin",
    }
}

/// Reads the arguments that follow the tool's name: a mode, an input path,
/// and optionally an output path; further arguments are ignored.
///
/// The error is the usage message for `name` with the reason in its last
/// line.
pub fn parse_args(name: &str, args: &[String]) -> (r: Result<Invocation, String>)
    ensures
        match r {
            Ok(invocation) => {
                &&& usage_problem(args@) is None
                &&& Some(invocation.mode) == mode_of(args@[0]@)
                &&& invocation.input@ == args@[1]@
                &&& text_of(invocation.output) == given_output(args@)
            },
            Err(text) => {
                &&& usage_problem(args@) matches Some(problem)
                &&& text@ == usage_text(name@, problem)
            },
        },
{
    if args.len() == 0 {
        return Err(usage_err(name, "expected a mode and an input file."));
    }
    let mode = match parse_mode(args[0].as_str()) {
        Some(mode) => mode,
        None => {
            let reason = String::from_str("invalid mode ").concat(args[0].as_str());
            return Err(usage_err(name, reason.as_str()));
        },
    };
    if args.len() == 1 {
        return Err(usage_err(name, "missing input file."));
    }
    let input = args[1].clone();
    let output = if args.len() > 2 {
        Some(args[2].clone())
    } else {
        None
    };
    Ok(Invocation { mode, input, output })
}

} // verus!
