//! A plain description of an external command invocation: the program, an
//! optional working directory, and its arguments.  The library only builds
//! these; running them is the caller's business.

use vstd::prelude::*;

verus! {

/// An external command to run.
#[derive(Debug, Clone, PartialEq, Eq)]
pub struct Command {
    /// The program name.
    pub program: String,
    /// The working directory to run it in, when one is required.
    pub cwd: Option<String>,
    /// The arguments, in order.
    pub args: Vec<String>,
}

impl Command {
    /// A command for `exec_name` with no arguments yet.
    pub fn new(exec_name: &str, cwd: Option<String>) -> (r: Command)
        ensures
            r.program@ == exec_name@,
            r.cwd == cwd,
            r.args.deep_view() == Seq::<Seq<char>>::empty(),
    {
        let r = Command { program: String::from_str(exec_name), cwd, args: Vec::new() };
        proof {
            assert(r.args.deep_view() =~= Seq::<Seq<char>>::empty());
        }
        r
    }

    /// The command with one more argument appended.
    pub fn arg(self, a: &str) -> (r: Command)
        ensures
            r.program == self.program,
            r.cwd == self.cwd,
            r.args.deep_view() == self.args.deep_view().push(a@),
    {
        let ghost old_args = self.args.deep_view();
        let mut args = self.args;
        args.push(String::from_str(a));
        proof {
            assert(args.deep_view() =~= old_args.push(a@));
        }
        Command { program: self.program, cwd: self.cwd, args }
    }
}

} // verus!
