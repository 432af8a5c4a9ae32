use vstd::prelude::*;
use vstd::string::StringExecFns;
use crate::config::{ConfigEntry, config_view};
use crate::render::{dir_view, package_dir};

verus! {

/// The views of an argument list.
pub open spec fn args_view(args: Seq<String>) -> Seq<Seq<char>> {
    args.map(|i: int, s: String| s@)
}

/// The arguments joined with single spaces: empty for none, and no leading
/// or trailing space otherwise.
pub open spec fn join_spaces(args: Seq<Seq<char>>) -> Seq<char>
    decreases args.len(),
{
    if args.len() == 0 {
        Seq::empty()
    } else if args.len() == 1 {
        args[0]
    } else {
        args[0] + " "@ + join_spaces(args.skip(1))
    }
}

/// Appending one argument extends the joined line by a space and that
/// argument, except on the first.
proof fn lemma_join_snoc(args: Seq<Seq<char>>, x: Seq<char>)
    ensures
        join_spaces(args.push(x)) == if args.len() == 0 {
            x
        } else {
            join_spaces(args) + " "@ + x
        },
    decreases args.len(),
{
    if args.len() == 0 {
        assert(args.push(x)[0] == x);
    } else if args.len() == 1 {
        assert(args.push(x).skip(1) =~= seq![x]);
        assert(join_spaces(seq![x]) == x);
        assert(args.push(x)[0] == args[0]);
    } else {
        lemma_join_snoc(args.skip(1), x);
        assert(args.skip(1).push(x) =~= args.push(x).skip(1));
        assert(args[0] + " "@ + (join_spaces(args.skip(1)) + " "@ + x) =~= (args[0] + " "@
            + join_spaces(args.skip(1))) + " "@ + x);
    }
}

/// The command line the build subcommand reports: `make`, a space, then the
/// forwarded arguments joined with spaces — exactly as it is echoed per key.
pub open spec fn make_command_view(args: Seq<Seq<char>>) -> Seq<char> {
    "make "@ + join_spaces(args)
}

/// Build the reported build-command line.
pub fn make_command_line(args: &Vec<String>) -> (r: String)
    ensures
        r@ == make_command_view(args_view(args@)),
{
    let ghost av = args_view(args@);
    let mut line = String::from_str("make ");
    let mut i: usize = 0;
    while i < args.len()
        invariant
            0 <= i <= args@.len(),
            av == args_view(args@),
            line@ == "make "@ + join_spaces(av.take(i as int)),
        decreases args@.len() - i,
    {
        if i > 0 {
            line.append(" ");
        }
        line.append(args[i].as_str());
        proof {
            lemma_join_snoc(av.take(i as int), av[i as int]);
            assert(av.take(i as int).push(av[i as int]) =~= av.take(i as int + 1));
            if i > 0 {
                assert(("make "@ + join_spaces(av.take(i as int))) + " "@ + av[i as int] =~= "make "@
                    + (join_spaces(av.take(i as int)) + " "@ + av[i as int]));
            } else {
                assert(av.take(0) =~= Seq::<Seq<char>>::empty());
            }
        }
        i = i + 1;
    }
    proof {
        assert(av.take(i as int) =~= av);
    }
    line
}

/// One per-key status line of the build and checksum subcommands:
/// `<key>: <command> exited with <status>`.
pub fn report_line(key: &String, cmd: &String, status: &String) -> (r: String)
    ensures
        r@ == key@ + ": "@ + cmd@ + " exited with "@ + status@,
{
    let mut line = key.clone();
    line.append(": ");
    line.append(cmd.as_str());
    line.append(" exited with ");
    line.append(status.as_str());
    line
}

/// The per-key prefix the lint subcommand prints before the tool's own
/// output: `<key>: `.
pub fn key_prefix(key: &String) -> (r: String)
    ensures
        r@ == key@ + ": "@,
{
    let mut line = key.clone();
    line.append(": ");
    line
}

/// The lint tool's name.
pub fn pkglint_program() -> (r: String)
    ensures
        r@ == "pkglint"@,
{
    String::from_str("pkglint")
}

/// The build tool's name, also used for checksum regeneration.
pub fn make_program() -> (r: String)
    ensures
        r@ == "make"@,
{
    String::from_str("make")
}

/// The lint tool's fixed argument list.
pub fn pkglint_args() -> (r: Vec<String>)
    ensures
        r@.len() == 2,
        r@[0]@ == "-Call"@,
        r@[1]@ == "-Wall"@,
{
    let mut args: Vec<String> = Vec::new();
    args.push(String::from_str("-Call"));
    args.push(String::from_str("-Wall"));
    args
}

/// The checksum subcommand's fixed argument list for the build tool.
pub fn makesum_args() -> (r: Vec<String>)
    ensures
        r@.len() == 1,
        r@[0]@ == "makesum"@,
{
    let mut args: Vec<String> = Vec::new();
    args.push(String::from_str("makesum"));
    args
}

/// The state of the sequential process-runner: the variant keys in table
/// order, and the position of the next key to visit. One external command
/// runs per key, strictly one after the other; the runner never reorders,
/// repeats or drops a key.
pub struct ProcessRun {
    pub keys: Vec<String>,
    pub next: usize,
}

impl ProcessRun {
    /// Start a run over a validated configuration: its keys, in order,
    /// beginning with the first.
    pub fn new(cfg: &Vec<ConfigEntry>) -> (r: ProcessRun)
        ensures
            r.next == 0,
            r.keys@.len() == cfg@.len(),
            forall|i: int|
                0 <= i < cfg@.len() ==> (#[trigger] r.keys@[i])@ == config_view(cfg@)[i].key,
    {
        let mut keys: Vec<String> = Vec::new();
        let mut i: usize = 0;
        while i < cfg.len()
            invariant
                0 <= i <= cfg@.len(),
                keys@.len() == i,
                forall|j: int|
                    0 <= j < i ==> (#[trigger] keys@[j])@ == config_view(cfg@)[j].key,
            decreases cfg@.len() - i,
        {
            keys.push(cfg[i].key.clone());
            i = i + 1;
        }
        ProcessRun { keys, next: 0 }
    }

    /// The key the runner is at, with its output directory — or `None` when
    /// every key has been visited and the run is complete.
    pub fn current(&self) -> (r: Option<(String, String)>)
        ensures
            r is Some <==> self.next < self.keys@.len(),
            r is Some ==> r->Some_0.0@ == self.keys@[self.next as int]@,
            r is Some ==> r->Some_0.1@ == dir_view(self.keys@[self.next as int]@),
    {
        if self.next < self.keys.len() {
            let key = self.keys[self.next].clone();
            let dir = package_dir(&key);
            Some((key, dir))
        } else {
            None
        }
    }

    /// Record that the spawned command for the current key exited, and move
    /// on. The reported status is taken only for the record: whether it was
    /// zero or not, the runner advances to the next key — a failing build or
    /// checksum run for one variant never stops the visits to the rest.
    /// (Only a command that cannot be spawned at all aborts a run, and that
    /// decision lies with the caller, which then simply stops calling.)
    pub fn record_exit(&mut self, _status_nonzero: bool)
        requires
            old(self).next < old(self).keys@.len(),
        ensures
            final(self).keys == old(self).keys,
            final(self).next == old(self).next + 1,
    {
        if self.next < self.keys.len() {
            self.next = self.next + 1;
        }
    }
}

} // verus!
