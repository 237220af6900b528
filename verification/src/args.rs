use vstd::prelude::*;

verus! {

/// The validated command-line surface: exactly two positional arguments,
/// a display name and a network interface name.
#[derive(Debug, PartialEq, Eq)]
pub struct CliArgs {
    pub name: String,
    pub interface: String,
}

/// A malformed invocation: the wrong number of arguments was given. The
/// caller prints a usage line and exits with status 1, before any network
/// operation.
#[derive(Clone, Copy, Debug, PartialEq, Eq, Structural)]
pub struct UsageError {
    /// How many arguments were given, the program name included.
    pub argc: usize,
}

/// Validates the argument vector (program name first, as handed to the
/// process). Succeeds exactly when two positional arguments were given,
/// and then yields them unchanged.
pub fn parse_args(args: Vec<String>) -> (r: Result<CliArgs, UsageError>)
    ensures
        r is Ok <==> args@.len() == 3,
        match r {
            Ok(c) => c.name@ == args@[1]@ && c.interface@ == args@[2]@,
            Err(e) => e.argc == args@.len(),
        },
{
    if args.len() != 3 {
        return Err(UsageError { argc: args.len() });
    }
    let mut rest = args;
    let name = rest.remove(1);
    let interface = rest.remove(1);
    Ok(CliArgs { name, interface })
}

} // verus!
