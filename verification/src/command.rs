use vstd::prelude::*;
use vstd::string::StringExecFns;

verus! {

/// What one invocation of the tool has been asked to do, decided from the
/// process's argument list alone.
pub enum Action {
    /// Render every template for every variant.
    Render,
    /// Run the build tool once per variant, forwarding the trailing
    /// arguments verbatim.
    Make(Vec<String>),
    /// Run the lint tool once per variant.
    Pkglint,
    /// Regenerate checksums once per variant.
    Makesum,
    /// The subcommand was missing or unrecognized: print the usage line and
    /// exit successfully, touching nothing else.
    Usage,
}

/// The usage line printed for a missing or unrecognized subcommand.
pub fn usage_text() -> (r: String)
    ensures
        r@ == "usage: iosevka-template (make|makesum|pkglint|render)"@,
{
    String::from_str("usage: iosevka-template (make|makesum|pkglint|render)")
}

/// What the dispatcher must answer for a given argument list: the one
/// subcommand name picks the action; anything unrecognized, or an empty
/// argument list, is `Usage`; `make` carries its trailing arguments verbatim.
pub open spec fn dispatched(args: Seq<String>, r: Action) -> bool {
    if args.len() == 0 {
        r is Usage
    } else if args[0]@ == "render"@ {
        r is Render
    } else if args[0]@ == "make"@ {
        r matches Action::Make(rest) && rest@ == args.skip(1)
    } else if args[0]@ == "pkglint"@ {
        r is Pkglint
    } else if args[0]@ == "makesum"@ {
        r is Makesum
    } else {
        r is Usage
    }
}

/// The command dispatcher: reads exactly one subcommand name from the
/// argument list (the program name already stripped) and routes it. Anything
/// unrecognized, including an empty argument list, is `Usage`, which a caller
/// answers by printing the usage line and exiting successfully — it never
/// goes on to load the configuration.
pub fn parse_command(args: &Vec<String>) -> (r: Action)
    ensures
        dispatched(args@, r),
{
    if args.len() == 0 {
        return Action::Usage;
    }
    let cmd: &String = &args[0];
    if cmd.eq(&String::from_str("render")) {
        Action::Render
    } else if cmd.eq(&String::from_str("make")) {
        let mut rest: Vec<String> = Vec::new();
        let mut i: usize = 1;
        while i < args.len()
            invariant
                1 <= i <= args@.len(),
                rest@ == args@.subrange(1, i as int),
            decreases args@.len() - i,
        {
            rest.push(args[i].clone());
            i = i + 1;
            proof {
                assert(rest@ =~= args@.subrange(1, i as int));
            }
        }
        proof {
            assert(rest@ =~= args@.skip(1));
        }
        Action::Make(rest)
    } else if cmd.eq(&String::from_str("pkglint")) {
        Action::Pkglint
    } else if cmd.eq(&String::from_str("makesum")) {
        Action::Makesum
    } else {
        Action::Usage
    }
}

} // verus!
