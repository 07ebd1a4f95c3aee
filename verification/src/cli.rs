//! The host's command line: `host [--debug] <path-to-config.yaml>`.

use crate::text::{same_text, texts};
use vstd::prelude::*;
use vstd::string::*;

verus! {

/// Why a command line was refused.
#[derive(Debug)]
pub enum ArgsError {
    /// A second argument that is not the flag.
    UnexpectedArgument(String),
    /// No path of a configuration file was given; `program` is the name
    /// under which the host was called.
    MissingConfigPath { program: String },
}

/// The error as text.
pub open spec fn args_error_text(error: ArgsError) -> Seq<char> {
    match error {
        ArgsError::UnexpectedArgument(argument) => "Unexpected argument: "@ + argument@,
        ArgsError::MissingConfigPath { program } => "Usage: "@ + program@
            + " [--debug] <path_to_wasm_config.yaml>"@,
    }
}

impl ArgsError {
    /// The error as text.
    pub fn message(&self) -> (text: String)
        ensures
            text@ == args_error_text(*self),
    {
        match self {
            ArgsError::UnexpectedArgument(argument) => {
                let mut text = String::from_str("Unexpected argument: ");
                text.append(argument.as_str());
                text
            },
            ArgsError::MissingConfigPath { program } => {
                let mut text = String::from_str("Usage: ");
                text.append(program.as_str());
                text.append(" [--debug] <path_to_wasm_config.yaml>");
                text
            },
        }
    }
}

/// What has been made of the arguments read so far.
pub struct Scan {
    /// Whether the flag was seen.
    pub debug: bool,
    /// The path of the configuration file, once it was seen.
    pub path: Option<Seq<char>>,
    /// The first argument that was one too many.
    pub unexpected: Option<Seq<char>>,
}

/// Reads arguments from left to right: `--debug` sets the flag wherever it
/// stands, the first other argument is the path, and a second one is one too
/// many. Nothing is read after that.
pub open spec fn scan(arguments: Seq<Seq<char>>) -> Scan
    decreases arguments.len(),
{
    if arguments.len() == 0 {
        Scan { debug: false, path: None, unexpected: None }
    } else {
        let before = scan(arguments.drop_last());
        let argument = arguments.last();
        if before.unexpected is Some {
            before
        } else if argument == "--debug"@ {
            Scan { debug: true, ..before }
        } else if before.path is None {
            Scan { path: Some(argument), ..before }
        } else {
            Scan { unexpected: Some(argument), ..before }
        }
    }
}

/// Reads the host's command line; `args[0]` is the name under which the
/// host was called. Gives the path of the configuration file and whether
/// debug logging was asked for.
pub fn parse_args(args: &Vec<String>) -> (r: Result<(String, bool), ArgsError>)
    requires
        args.len() >= 1,
    ensures
        ({
            let read = scan(texts(args@).subrange(1, args.len() as int));
            match r {
                Ok((path, debug)) => read.unexpected is None && read.path == Some(path@) && debug
                    == read.debug,
                Err(ArgsError::UnexpectedArgument(argument)) => read.unexpected == Some(
                    argument@,
                ),
                Err(ArgsError::MissingConfigPath { program }) => read.unexpected is None
                    && read.path is None && program@ == args[0]@,
            }
        }),
{
    let mut debug = false;
    let mut path: Option<String> = None;
    let mut unexpected: Option<String> = None;
    let ghost all = texts(args@);
    let mut i: usize = 1;
    while i < args.len()
        invariant
            1 <= i <= args.len(),
            all == texts(args@),
            scan(all.subrange(1, i as int)).debug == debug,
            scan(all.subrange(1, i as int)).path == (match path {
                Some(p) => Some(p@),
                None => None,
            }),
            scan(all.subrange(1, i as int)).unexpected == (match unexpected {
                Some(u) => Some(u@),
                None => None,
            }),
        decreases args.len() - i,
    {
        assert(all.subrange(1, i + 1).drop_last() =~= all.subrange(1, i as int));
        assert(all.subrange(1, i + 1).last() == args[i as int]@);
        if unexpected.is_none() {
            if same_text(args[i].as_str(), "--debug") {
                debug = true;
            } else if path.is_none() {
                path = Some(args[i].clone());
            } else {
                unexpected = Some(args[i].clone());
            }
        }
        i += 1;
    }
    match unexpected {
        Some(argument) => Err(ArgsError::UnexpectedArgument(argument)),
        None => match path {
            Some(path) => Ok((path, debug)),
            None => Err(ArgsError::MissingConfigPath { program: args[0].clone() }),
        },
    }
}

} // verus!
