//! The command line: the mount options and the operation to take.  The
//! grammar is five valued options (`--mount-point`, `--cache-dir`,
//! `--log-dir`, `--mega-host`, `--mega-port`), in any order, followed by a
//! subcommand (`connect` or `disconnect`) naming the target repository.
//! Reading the words from the process environment happens outside the
//! library; this module turns the word list into an `Args` record.

use vstd::prelude::*;
use vstd::string::StringExecFns;

use crate::num::all_digits;
use crate::num::dec_value;
use crate::num::parse_u64;

verus! {

/// The operation to take on the named repository.
#[derive(Debug, PartialEq)]
pub enum Commands {
    /// Mount the repository.
    Connect { target: String },
    /// Unmount the repository.
    Disconnect { target: String },
}

/// What the command line said: the optional mount configuration and the
/// operation.
#[derive(Debug, PartialEq)]
pub struct Args {
    pub mount_point: Option<String>,
    pub cache_dir: Option<String>,
    pub log_dir: Option<String>,
    pub mega_host: Option<String>,
    pub mega_port: Option<u16>,
    pub command: Commands,
}

/// Why a word list was rejected.
#[derive(Clone, Copy, Debug, PartialEq, Eq, Structural)]
pub enum CliError {
    /// The words ran out before a subcommand appeared.
    MissingCommand,
    /// An option stood last, with no value after it.
    MissingValue,
    /// The value of `--mega-port` is not a port number.
    InvalidPort,
    /// A subcommand stood last, with no target after it.
    MissingTarget,
    /// Words follow the subcommand's target.
    UnexpectedArgument,
    /// A word is neither a known option nor a subcommand.
    UnknownArgument,
}

/// `s` is a port number: digits whose value fits sixteen bits.
pub open spec fn valid_port(s: Seq<char>) -> bool {
    s.len() > 0 && all_digits(s) && dec_value(s) <= u16::MAX
}

/// What parsing the words from position `i` on yields, with the options
/// gathered so far.  One option and its value are consumed per step; a
/// subcommand must be followed by exactly the target.
pub open spec fn parse_from(
    args: Seq<String>,
    i: int,
    mount_point: Option<String>,
    cache_dir: Option<String>,
    log_dir: Option<String>,
    mega_host: Option<String>,
    mega_port: Option<u16>,
) -> Result<Args, CliError>
    decreases args.len() - i,
{
    if i >= args.len() {
        Err(CliError::MissingCommand)
    } else if args[i]@ == "--mount-point"@ {
        if i + 1 < args.len() {
            parse_from(args, i + 2, Some(args[i + 1]), cache_dir, log_dir, mega_host, mega_port)
        } else {
            Err(CliError::MissingValue)
        }
    } else if args[i]@ == "--cache-dir"@ {
        if i + 1 < args.len() {
            parse_from(args, i + 2, mount_point, Some(args[i + 1]), log_dir, mega_host, mega_port)
        } else {
            Err(CliError::MissingValue)
        }
    } else if args[i]@ == "--log-dir"@ {
        if i + 1 < args.len() {
            parse_from(args, i + 2, mount_point, cache_dir, Some(args[i + 1]), mega_host, mega_port)
        } else {
            Err(CliError::MissingValue)
        }
    } else if args[i]@ == "--mega-host"@ {
        if i + 1 < args.len() {
            parse_from(args, i + 2, mount_point, cache_dir, log_dir, Some(args[i + 1]), mega_port)
        } else {
            Err(CliError::MissingValue)
        }
    } else if args[i]@ == "--mega-port"@ {
        if i + 1 < args.len() {
            if valid_port(args[i + 1]@) {
                parse_from(
                    args,
                    i + 2,
                    mount_point,
                    cache_dir,
                    log_dir,
                    mega_host,
                    Some(dec_value(args[i + 1]@) as u16),
                )
            } else {
                Err(CliError::InvalidPort)
            }
        } else {
            Err(CliError::MissingValue)
        }
    } else if args[i]@ == "connect"@ {
        if i + 1 >= args.len() {
            Err(CliError::MissingTarget)
        } else if i + 2 != args.len() {
            Err(CliError::UnexpectedArgument)
        } else {
            Ok(
                Args {
                    mount_point,
                    cache_dir,
                    log_dir,
                    mega_host,
                    mega_port,
                    command: Commands::Connect { target: args[i + 1] },
                },
            )
        }
    } else if args[i]@ == "disconnect"@ {
        if i + 1 >= args.len() {
            Err(CliError::MissingTarget)
        } else if i + 2 != args.len() {
            Err(CliError::UnexpectedArgument)
        } else {
            Ok(
                Args {
                    mount_point,
                    cache_dir,
                    log_dir,
                    mega_host,
                    mega_port,
                    command: Commands::Disconnect { target: args[i + 1] },
                },
            )
        }
    } else {
        Err(CliError::UnknownArgument)
    }
}

/// Parse a word list as the process arguments: the first word is the
/// program's own name and is skipped.
pub fn parse(args: Vec<String>) -> (r: Result<Args, CliError>)
    ensures
        r == parse_from(args@, 1, None, None, None, None, None),
{
    let n = args.len();
    if n == 0 {
        return Err(CliError::MissingCommand);
    }
    let flag_mount = String::from_str("--mount-point");
    let flag_cache = String::from_str("--cache-dir");
    let flag_log = String::from_str("--log-dir");
    let flag_host = String::from_str("--mega-host");
    let flag_port = String::from_str("--mega-port");
    let word_connect = String::from_str("connect");
    let word_disconnect = String::from_str("disconnect");
    let mut mount_point: Option<String> = None;
    let mut cache_dir: Option<String> = None;
    let mut log_dir: Option<String> = None;
    let mut mega_host: Option<String> = None;
    let mut mega_port: Option<u16> = None;
    let mut i: usize = 1;
    while i < n
        invariant
            n == args@.len(),
            1 <= i <= n,
            flag_mount@ == "--mount-point"@,
            flag_cache@ == "--cache-dir"@,
            flag_log@ == "--log-dir"@,
            flag_host@ == "--mega-host"@,
            flag_port@ == "--mega-port"@,
            word_connect@ == "connect"@,
            word_disconnect@ == "disconnect"@,
            parse_from(args@, 1, None, None, None, None, None) == parse_from(
                args@,
                i as int,
                mount_point,
                cache_dir,
                log_dir,
                mega_host,
                mega_port,
            ),
        decreases n - i,
    {
        if args[i] == flag_mount {
            if i + 1 < n {
                mount_point = Some(args[i + 1].clone());
                i = i + 2;
            } else {
                return Err(CliError::MissingValue);
            }
        } else if args[i] == flag_cache {
            if i + 1 < n {
                cache_dir = Some(args[i + 1].clone());
                i = i + 2;
            } else {
                return Err(CliError::MissingValue);
            }
        } else if args[i] == flag_log {
            if i + 1 < n {
                log_dir = Some(args[i + 1].clone());
                i = i + 2;
            } else {
                return Err(CliError::MissingValue);
            }
        } else if args[i] == flag_host {
            if i + 1 < n {
                mega_host = Some(args[i + 1].clone());
                i = i + 2;
            } else {
                return Err(CliError::MissingValue);
            }
        } else if args[i] == flag_port {
            if i + 1 < n {
                match parse_u64(args[i + 1].as_str()) {
                    Some(v) => {
                        if v <= u16::MAX as u64 {
                            mega_port = Some(v as u16);
                            i = i + 2;
                        } else {
                            return Err(CliError::InvalidPort);
                        }
                    },
                    None => {
                        return Err(CliError::InvalidPort);
                    },
                }
            } else {
                return Err(CliError::MissingValue);
            }
        } else if args[i] == word_connect {
            if i + 1 >= n {
                return Err(CliError::MissingTarget);
            } else if i + 2 != n {
                return Err(CliError::UnexpectedArgument);
            } else {
                return Ok(
                    Args {
                        mount_point,
                        cache_dir,
                        log_dir,
                        mega_host,
                        mega_port,
                        command: Commands::Connect { target: args[i + 1].clone() },
                    },
                );
            }
        } else if args[i] == word_disconnect {
            if i + 1 >= n {
                return Err(CliError::MissingTarget);
            } else if i + 2 != n {
                return Err(CliError::UnexpectedArgument);
            } else {
                return Ok(
                    Args {
                        mount_point,
                        cache_dir,
                        log_dir,
                        mega_host,
                        mega_port,
                        command: Commands::Disconnect { target: args[i + 1].clone() },
                    },
                );
            }
        } else {
            return Err(CliError::UnknownArgument);
        }
    }
    Err(CliError::MissingCommand)
}

} // verus!
