//! The command executor's decision: how a command string is split into
//! a program and arguments, and whether anything is to be spawned at
//! all. Running the plan is left to the caller.
use vstd::prelude::*;

use crate::text::spec_words;
use crate::text::split_words;

verus! {

/// What a command string asks for. An empty or all-whitespace command
/// is a deliberate no-op: the confirmation menu's cancel entry carries
/// one.
#[derive(Debug)]
pub enum RunPlan {
    /// Nothing to announce, nothing to spawn.
    NoOp,
    /// Announce `program` with `args`; spawn them only when `dry_run`
    /// is false.
    Invoke { program: String, args: Vec<String>, dry_run: bool },
}

/// Splits the command on whitespace — the first word is the program,
/// the rest are its arguments; no shell quoting is honoured, by design.
pub fn plan(cmd: &str, dry_run: bool) -> (r: RunPlan)
    ensures
        ({
            let ws = spec_words(cmd@);
            if ws.len() == 0 {
                r is NoOp
            } else {
                r matches RunPlan::Invoke { program, args, dry_run: d } && program@ == ws[0]
                    && args.deep_view() == ws.drop_first() && d == dry_run
            }
        }),
        cmd@.len() == 0 ==> r is NoOp,
{
    let mut words = split_words(cmd);
    if words.len() == 0 {
        RunPlan::NoOp
    } else {
        let program = words.remove(0);
        proof {
            assert(words.deep_view() =~~= spec_words(cmd@).drop_first());
        }
        RunPlan::Invoke { program, args: words, dry_run }
    }
}

} // verus!
