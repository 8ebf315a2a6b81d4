//! Command-line arguments of the game.
use vstd::prelude::*;
use vstd::string::StringExecFns;

verus! {

/// A command-line argument the game understands.
#[derive(Clone, Copy, Debug, PartialEq, Eq, Structural)]
pub enum ArgName {
    /// Write the maze to an HTML file before starting.
    Html,
}

/// The text of an argument.
pub open spec fn arg_text(arg: ArgName) -> Seq<char> {
    match arg {
        ArgName::Html => "html"@,
    }
}

impl ArgName {
    /// The text of this argument on the command line.
    pub fn to_arg_string(&self) -> (res: String)
        ensures
            res@ == arg_text(*self),
    {
        match self {
            ArgName::Html => String::from_str("html"),
        }
    }
}

/// Whether `arg` is among the command-line arguments, exactly as written.
pub fn has_arg(args: &Vec<String>, arg: ArgName) -> (res: bool)
    ensures
        res == exists|i: int| 0 <= i < args.len() && #[trigger] args[i]@ == arg_text(arg),
{
    let wanted = arg.to_arg_string();
    let mut i: usize = 0;
    while i < args.len()
        invariant
            i <= args.len(),
            wanted@ == arg_text(arg),
            forall|j: int| 0 <= j < i ==> #[trigger] args[j]@ != arg_text(arg),
        decreases args.len() - i,
    {
        if args[i] == wanted {
            return true;
        }
        i = i + 1;
    }
    false
}

} // verus!
