//! Classification of the command line.
//!
//! The first argument selects the mode: `--help`, `--version`, `--remove`,
//! or a literal directory name. The arguments after it name the removal
//! target, or the directory, file and contents to create.

use vstd::prelude::*;

verus! {

/// What one invocation of the tool asks for, read off the argument list
/// (the program name itself excluded).
#[derive(Debug, PartialEq, Eq)]
pub enum Invocation {
    /// `--help`, or no arguments at all.
    Help,
    /// `--version`.
    Version,
    /// `--remove <target>`: remove the directory `target` after confirmation.
    Remove { target: String },
    /// `--remove` with no directory name after it.
    RemoveMissingArg,
    /// A literal directory name, optionally followed by a file name and
    /// the contents for that file. Arguments past the third are ignored.
    Create { dir: String, file: Option<String>, contents: Option<String> },
}

/// The invocation that an argument list denotes.
pub open spec fn spec_classify(args: Seq<String>) -> Invocation {
    if args.len() == 0 {
        Invocation::Help
    } else if args[0]@ == "--help"@ {
        Invocation::Help
    } else if args[0]@ == "--version"@ {
        Invocation::Version
    } else if args[0]@ == "--remove"@ {
        if args.len() >= 2 {
            Invocation::Remove { target: args[1] }
        } else {
            Invocation::RemoveMissingArg
        }
    } else {
        Invocation::Create {
            dir: args[0],
            file: if args.len() >= 2 { Some(args[1]) } else { None },
            contents: if args.len() >= 3 { Some(args[2]) } else { None },
        }
    }
}

/// Law: an empty argument list and a lone `--help` denote the same
/// invocation. The help outcome is built from that invocation alone, so
/// the two runs print identical bytes and exit with the same code.
pub proof fn lemma_no_args_is_help(no_args: Seq<String>, help_args: Seq<String>)
    requires
        no_args.len() == 0,
        help_args.len() == 1,
        help_args[0]@ == "--help"@,
    ensures
        spec_classify(no_args) == Invocation::Help,
        spec_classify(help_args) == Invocation::Help,
        spec_classify(no_args) == spec_classify(help_args),
{
}

/// Reads the argument list left to right and produces the invocation it
/// denotes.
pub fn classify(args: Vec<String>) -> (inv: Invocation)
    ensures
        inv == spec_classify(args@),
{
    let mut rest = args;
    if rest.len() == 0 {
        return Invocation::Help;
    }
    let first = rest.remove(0);
    if first == String::from_str("--help") {
        Invocation::Help
    } else if first == String::from_str("--version") {
        Invocation::Version
    } else if first == String::from_str("--remove") {
        if rest.len() >= 1 {
            Invocation::Remove { target: rest.remove(0) }
        } else {
            Invocation::RemoveMissingArg
        }
    } else {
        let dir = first;
        let file = if rest.len() >= 1 {
            Some(rest.remove(0))
        } else {
            None
        };
        let contents = if rest.len() >= 1 {
            Some(rest.remove(0))
        } else {
            None
        };
        Invocation::Create { dir, file, contents }
    }
}

} // verus!
