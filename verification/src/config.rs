//! Command-line configuration: the single required positional argument.

use vstd::prelude::*;

verus! {

/// The run's configuration: the root folder to scan.
pub struct Config {
    pub foldername: String,
}

impl Config {
    /// Parses the argument list as handed to the process: `args[0]` is the
    /// program name, `args[1]` the root folder. Fails exactly when no folder
    /// argument is present.
    pub fn new(args: &[String]) -> (r: Result<Config, &'static str>)
        ensures
            args@.len() < 2 ==> (r matches Err(m) && m@ == "Not enough arguments"@),
            args@.len() >= 2 ==> (r matches Ok(c) && c.foldername@ == args@[1]@),
    {
        if args.len() < 2 {
            return Err("Not enough arguments");
        }

        let foldername = args[1].clone();

        Ok(Config { foldername })
    }
}

} // verus!
