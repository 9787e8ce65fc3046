//! Command line: the path of the configuration file.
use vstd::prelude::*;
use vstd::string::*;

verus! {

#[derive(PartialEq, Eq, Structural, Clone, Copy, Debug)]
pub enum CliError {
    /// An argument that the program does not take.
    UnknownArgument,
    /// `--config` or `-c` without a value, or with an empty one.
    MissingValue,
    /// The configuration path was given more than once.
    Repeated,
    /// `--help` or `-h`: the caller prints the usage.
    HelpRequested,
}

pub struct Cli {
    /// Path of the configuration file.
    pub config: String,
}

/// The path of the configuration file when none is given.
pub open spec fn default_config_path() -> Seq<char> {
    "/etc/bitcoin-faucet/config.toml"@
}

/// What one argument is.
pub enum ArgKind<T> {
    /// `--config` or `-c`: the value is the next argument.
    ConfigFlag,
    /// `--config=PATH`, `-cPATH` or `-c=PATH`.
    ConfigInline(T),
    Help,
    Unknown,
}

pub open spec fn arg_kind(t: Seq<char>) -> ArgKind<Seq<char>> {
    if t == "--config"@ || t == "-c"@ {
        ArgKind::ConfigFlag
    } else if t == "--help"@ || t == "-h"@ {
        ArgKind::Help
    } else if t.len() >= 9 && t.take(9) == "--config="@ {
        ArgKind::ConfigInline(t.skip(9))
    } else if t.len() > 2 && t.take(2) == "-c"@ {
        if t[2] == '=' {
            ArgKind::ConfigInline(t.skip(3))
        } else {
            ArgKind::ConfigInline(t.skip(2))
        }
    } else {
        ArgKind::Unknown
    }
}

/// The configuration path that the arguments from index `i` on give, when
/// the ones before gave `found`.
pub open spec fn config_from(args: Seq<Seq<char>>, i: int, found: Option<Seq<char>>) -> Result<
    Seq<char>,
    CliError,
>
    decreases args.len() - i,
{
    if i < 0 || i >= args.len() {
        match found {
            Some(p) => Ok(p),
            None => Ok(default_config_path()),
        }
    } else {
        match arg_kind(args[i]) {
            ArgKind::Help => Err(CliError::HelpRequested),
            ArgKind::Unknown => Err(CliError::UnknownArgument),
            ArgKind::ConfigFlag => if i + 1 >= args.len() || args[i + 1].len() == 0 {
                Err(CliError::MissingValue)
            } else if found.is_some() {
                Err(CliError::Repeated)
            } else {
                config_from(args, i + 2, Some(args[i + 1]))
            },
            ArgKind::ConfigInline(v) => if v.len() == 0 {
                Err(CliError::MissingValue)
            } else if found.is_some() {
                Err(CliError::Repeated)
            } else {
                config_from(args, i + 1, Some(v))
            },
        }
    }
}

/// The configuration path that the arguments (program name left out) give.
pub open spec fn config_from_args(args: Seq<Seq<char>>) -> Result<Seq<char>, CliError> {
    config_from(args, 0, None)
}

pub open spec fn args_view(args: Seq<String>) -> Seq<Seq<char>> {
    args.map_values(|a: String| a@)
}

fn same_text(a: &str, b: &str) -> (r: bool)
    ensures
        r == (a@ == b@),
{
    String::from_str(a) == String::from_str(b)
}

fn classify(t: &str) -> (r: ArgKind<String>)
    ensures
        match (r, arg_kind(t@)) {
            (ArgKind::ConfigFlag, ArgKind::ConfigFlag) => true,
            (ArgKind::Help, ArgKind::Help) => true,
            (ArgKind::Unknown, ArgKind::Unknown) => true,
            (ArgKind::ConfigInline(v), ArgKind::ConfigInline(w)) => v@ == w,
            _ => false,
        },
{
    if same_text(t, "--config") || same_text(t, "-c") {
        return ArgKind::ConfigFlag;
    }
    if same_text(t, "--help") || same_text(t, "-h") {
        return ArgKind::Help;
    }
    let n = t.unicode_len();
    if n >= 9 && same_text(t.substring_char(0, 9), "--config=") {
        return ArgKind::ConfigInline(String::from_str(t.substring_char(9, n)));
    }
    if n > 2 && same_text(t.substring_char(0, 2), "-c") {
        if t.get_char(2) == '=' {
            return ArgKind::ConfigInline(String::from_str(t.substring_char(3, n)));
        } else {
            return ArgKind::ConfigInline(String::from_str(t.substring_char(2, n)));
        }
    }
    ArgKind::Unknown
}

impl Cli {
    /// Reads the command line (program name left out): the configuration
    /// path as `--config PATH`, `--config=PATH`, `-c PATH`, `-cPATH` or
    /// `-c=PATH`, at most once; the default path when it is not given.
    pub fn from_args(args: &Vec<String>) -> (r: Result<Cli, CliError>)
        ensures
            config_from_args(args_view(args@)) matches Ok(p) ==> (r matches Ok(c) && c.config@ == p),
            config_from_args(args_view(args@)) matches Err(e) ==> r == Err::<Cli, CliError>(e),
    {
        let ghost av = args_view(args@);
        let mut found: Option<String> = None;
        let mut i: usize = 0;
        while i < args.len()
            invariant
                av == args_view(args@),
                i <= args@.len(),
                config_from_args(av) == config_from(
                    av,
                    i as int,
                    match found {
                        Some(p) => Some(p@),
                        None => None,
                    },
                ),
            decreases args@.len() - i,
        {
            assert(av[i as int] == args@[i as int]@);
            match classify(args[i].as_str()) {
                ArgKind::Help => {
                    return Err(CliError::HelpRequested);
                },
                ArgKind::Unknown => {
                    return Err(CliError::UnknownArgument);
                },
                ArgKind::ConfigFlag => {
                    if i + 1 >= args.len() {
                        return Err(CliError::MissingValue);
                    }
                    assert(av[i + 1] == args@[i + 1]@);
                    if args[i + 1].as_str().unicode_len() == 0 {
                        return Err(CliError::MissingValue);
                    }
                    if found.is_some() {
                        return Err(CliError::Repeated);
                    }
                    found = Some(args[i + 1].clone());
                    i = i + 2;
                },
                ArgKind::ConfigInline(v) => {
                    if v.as_str().unicode_len() == 0 {
                        return Err(CliError::MissingValue);
                    }
                    if found.is_some() {
                        return Err(CliError::Repeated);
                    }
                    found = Some(v);
                    i = i + 1;
                },
            }
        }
        match found {
            Some(p) => Ok(Cli { config: p }),
            None => Ok(Cli { config: String::from_str("/etc/bitcoin-faucet/config.toml") }),
        }
    }
}

} // verus!
