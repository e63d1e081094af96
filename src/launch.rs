use vstd::prelude::*;

verus! {

/// Whether the command line holds the flag that the login-item launcher
/// passes when it starts the application.
pub open spec fn has_autostart_flag(args: Seq<String>) -> bool {
    exists|i: int| 0 <= i < args.len() && (#[trigger] args[i])@ == "--autostarted"@
}

/// Whether the process was started at login, judged from its arguments.
pub fn was_autostarted(args: &Vec<String>) -> (r: bool)
    ensures
        r == has_autostart_flag(args@),
{
    let flag = String::from_str("--autostarted");
    let mut i: usize = 0;
    while i < args.len()
        invariant
            0 <= i <= args.len(),
            flag@ == "--autostarted"@,
            forall|j: int| 0 <= j < i ==> (#[trigger] args@[j])@ != "--autostarted"@,
        decreases args.len() - i,
    {
        if args[i] == flag {
            return true;
        }
        i = i + 1;
    }
    false
}

} // verus!
