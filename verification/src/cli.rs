use vstd::prelude::*;

verus! {

/// `std::path::PathBuf`, carried through unread.
#[verifier::external_type_specification]
#[verifier::external_body]
pub struct ExPathBuf(std::path::PathBuf);

/// The command line: what to do, and where the gist root is.
#[derive(Debug)]
pub struct Cli {
    pub command: Command,
    /// The gist root (`--root`, or the `GIST_ROOT` environment variable).
    pub root: Option<std::path::PathBuf>,
}

/// What to do.
#[derive(Debug, Clone, PartialEq, Eq)]
pub enum Command {
    /// Print the gist root.
    Root,
    /// Create the named gists.
    Create { names: Vec<String> },
    /// List the gists.
    List,
    /// Archive the named gists.
    Archive { names: Vec<String> },
    /// Unarchive the named gists.
    Unarchive { names: Vec<String> },
}

} // verus!
