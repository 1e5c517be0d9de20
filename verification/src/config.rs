//! The command line, split into a command word and its arguments.

use vstd::prelude::*;

verus! {

/// The message of the error that [`Config::build`] returns.
pub const NOT_ENOUGH_ARGUMENTS: &'static str = "not enough arguments";

/// A command word and the arguments that follow it.
#[derive(Debug, Clone, PartialEq, Eq)]
pub struct Config {
    pub command: Option<String>,
    pub arguments: Vec<String>,
}

/// What a [`Config`] holds, as character sequences.
pub struct ConfigView {
    pub command: Option<Seq<char>>,
    pub arguments: Seq<Seq<char>>,
}

impl View for Config {
    type V = ConfigView;

    open spec fn view(&self) -> ConfigView {
        ConfigView {
            command: match self.command {
                Some(word) => Some(word@),
                None => None,
            },
            arguments: self.arguments@.map_values(|a: String| a@),
        }
    }
}

impl Config {
    /// Splits the process arguments: `args[0]` is the program's name,
    /// `args[1]` the command word, and the rest its arguments. Fails when
    /// there is no command word.
    pub fn build(args: &[String]) -> (r: Result<Config, &'static str>)
        ensures
            r is Err <==> args@.len() < 2,
            r matches Err(message) ==> message@ == NOT_ENOUGH_ARGUMENTS@,
            r matches Ok(config) ==> config.command == Some(args@[1]) && config.arguments@
                == args@.subrange(2, args@.len() as int),
    {
        if args.len() < 2 {
            return Err(NOT_ENOUGH_ARGUMENTS);
        }
        let command = args[1].clone();
        let mut arguments: Vec<String> = Vec::new();
        let mut i: usize = 2;
        while i < args.len()
            invariant
                2 <= i <= args@.len(),
                arguments@ == args@.subrange(2, i as int),
            decreases args@.len() - i,
        {
            arguments.push(args[i].clone());
            assert(arguments@ =~= args@.subrange(2, i + 1));
            i += 1;
        }
        Ok(Config { command: Some(command), arguments })
    }
}

} // verus!
