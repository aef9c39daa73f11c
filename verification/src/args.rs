//! Invocation-form parsing: which role this process runs.
//!
//! No argument names the broker; the one recognized flag names the
//! sandbox; any other argument vector is refused, and the caller prints
//! usage and exits without error.

use vstd::prelude::*;

verus! {

/// The role a process plays, resolved once at start and never changed.
#[derive(Clone, Copy, Debug, PartialEq, Eq, Structural)]
pub enum ProcessType {
    Broker,
    Sandbox,
}

/// Recognize the single sandbox flag.
pub fn parse_arg(arg: &str) -> (r: Option<ProcessType>)
    ensures
        arg@ == "--sandbox"@ ==> r == Some(ProcessType::Sandbox),
        arg@ != "--sandbox"@ ==> r is None,
{
    proof {
        reveal_strlit("--sandbox");
    }
    let len = arg.unicode_len();
    if len != 9 {
        return None;
    }
    let ok = arg.get_char(0) == '-' && arg.get_char(1) == '-' && arg.get_char(2) == 's'
        && arg.get_char(3) == 'a' && arg.get_char(4) == 'n' && arg.get_char(5) == 'd'
        && arg.get_char(6) == 'b' && arg.get_char(7) == 'o' && arg.get_char(8) == 'x';
    if ok {
        proof {
            assert(arg@ =~= "--sandbox"@);
        }
        Some(ProcessType::Sandbox)
    } else {
        None
    }
}

/// Resolve the role from the argument vector, the program name included as
/// its first element: alone it names the broker, followed by the sandbox
/// flag it names the sandbox, and any other form is refused.
pub fn parse_args(args: &Vec<String>) -> (r: Option<ProcessType>)
    ensures
        args@.len() == 1 ==> r == Some(ProcessType::Broker),
        args@.len() == 2 && args@[1]@ == "--sandbox"@ ==> r == Some(ProcessType::Sandbox),
        args@.len() == 2 && args@[1]@ != "--sandbox"@ ==> r is None,
        args@.len() < 1 || args@.len() > 2 ==> r is None,
{
    if args.len() == 1 {
        Some(ProcessType::Broker)
    } else if args.len() == 2 {
        parse_arg(args[1].as_str())
    } else {
        None
    }
}

} // verus!
