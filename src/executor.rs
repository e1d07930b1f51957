//! The action executor's logic: the command that carries out an action, and
//! how a finished run is classified.
use vstd::prelude::*;
use crate::action::{ActionDescriptor, ActionView};

verus! {

/// A command to spawn: the program, its arguments, and the directory to run
/// it in (the caller's own when absent).
#[derive(Debug)]
pub struct CommandPlan {
    pub program: String,
    pub args: Vec<String>,
    pub working_dir: Option<String>,
}

/// The index of the last `/` in `s`, or -1 when there is none.
pub open spec fn last_slash(s: Seq<char>) -> int
    decreases s.len(),
{
    if s.len() == 0 {
        -1
    } else if s.last() == '/' {
        s.len() - 1
    } else {
        last_slash(s.drop_last())
    }
}

/// The directory that holds a script: everything before its last `/`, the
/// root for a path directly under it, nothing for a bare name.
pub open spec fn script_dir(path: Seq<char>) -> Option<Seq<char>> {
    let i = last_slash(path);
    if i < 0 {
        None
    } else if i == 0 {
        Some(seq!['/'])
    } else {
        Some(path.subrange(0, i))
    }
}

/// The shell used to run scripts.
pub open spec fn shell_program() -> Seq<char> {
    seq!['s', 'h']
}

/// The process manager that restarts services.
pub open spec fn manager_program() -> Seq<char> {
    seq!['p', 'm', '2']
}

/// The command that carries out an action, as plain values: program,
/// arguments, working directory.
pub open spec fn plan_of(a: ActionView) -> (Seq<char>, Seq<Seq<char>>, Option<Seq<char>>) {
    match a {
        ActionView::RunScript(path) => (
            shell_program(),
            seq![seq!['-', 'c'], path],
            script_dir(path),
        ),
        ActionView::RestartService(name) => (
            manager_program(),
            seq![seq!['r', 'e', 's', 't', 'a', 'r', 't'], name],
            None,
        ),
    }
}

impl CommandPlan {
    /// The plan as plain values.
    pub open spec fn spec_view(&self) -> (Seq<char>, Seq<Seq<char>>, Option<Seq<char>>) {
        (
            self.program@,
            self.args@.map_values(|a: String| a@),
            match self.working_dir {
                Some(d) => Some(d@),
                None => None,
            },
        )
    }
}

/// The directory that holds the script at `path`.
pub fn script_dir_of(path: &str) -> (r: Option<String>)
    ensures
        match r {
            Some(d) => script_dir(path@) == Some(d@),
            None => script_dir(path@) is None,
        },
{
    let n = path.unicode_len();
    let mut i: usize = n;
    assert(path@.subrange(0, n as int) =~= path@);
    while i > 0
        invariant
            n == path@.len(),
            i <= n,
            last_slash(path@) == last_slash(path@.subrange(0, i as int)),
        decreases i,
    {
        let ghost pre = path@.subrange(0, i as int);
        assert(pre.drop_last() =~= path@.subrange(0, i - 1));
        if path.get_char(i - 1) == '/' {
            assert(pre.last() == '/');
            if i == 1 {
                proof {
                    reveal_strlit("/");
                }
                let root = String::from_str("/");
                assert(root@ =~= seq!['/']);
                return Some(root);
            }
            return Some(path.substring_char(0, i - 1).to_owned());
        }
        i = i - 1;
    }
    assert(path@.subrange(0, 0) =~= Seq::<char>::empty());
    None
}

/// The command that carries out `action`: a script runs under `sh -c` in its
/// own directory; a service is restarted with `pm2 restart`.
pub fn plan_action(action: &ActionDescriptor) -> (r: CommandPlan)
    ensures
        r.spec_view() == plan_of(action@),
{
    proof {
        reveal_strlit("sh");
        reveal_strlit("-c");
        reveal_strlit("pm2");
        reveal_strlit("restart");
    }
    match action {
        ActionDescriptor::RunScript { path } => {
            let program = String::from_str("sh");
            let mut args: Vec<String> = Vec::new();
            args.push(String::from_str("-c"));
            args.push(path.clone());
            assert(args@[0]@ =~= seq!['-', 'c']);
            let r = CommandPlan { program, args, working_dir: script_dir_of(path.as_str()) };
            assert(r.spec_view().0 =~= shell_program());
            assert(r.spec_view().1 =~= plan_of(action@).1);
            r
        },
        ActionDescriptor::RestartService { service_name } => {
            let program = String::from_str("pm2");
            let mut args: Vec<String> = Vec::new();
            args.push(String::from_str("restart"));
            args.push(service_name.clone());
            assert(args@[0]@ =~= seq!['r', 'e', 's', 't', 'a', 'r', 't']);
            let r = CommandPlan { program, args, working_dir: None };
            assert(r.spec_view().0 =~= manager_program());
            assert(r.spec_view().1 =~= plan_of(action@).1);
            r
        },
    }
}

/// What a finished command reported: its exit code (absent when a signal
/// ended it) and its captured output.
#[derive(Debug)]
pub struct ProcessOutput {
    pub code: Option<i32>,
    pub stdout: String,
    pub stderr: String,
}

/// The result of running an action.
#[derive(Debug)]
pub enum ExecutionOutcome {
    /// The command exited with code zero; holds its captured output.
    Success { stdout: String, stderr: String },
    /// The command ran and did not exit with code zero.
    Failure { code: Option<i32>, stdout: String, stderr: String },
    /// The command could not be started; holds the reason.
    SpawnError { reason: String },
}

/// Classifies a run: exit code zero is success, any other end a failure, both
/// with the captured output; a run that never started is a spawn error.
pub fn classify(run: Result<ProcessOutput, String>) -> (r: ExecutionOutcome)
    ensures
        match run {
            Ok(o) => if o.code == Some(0i32) {
                r == (ExecutionOutcome::Success { stdout: o.stdout, stderr: o.stderr })
            } else {
                r == (ExecutionOutcome::Failure { code: o.code, stdout: o.stdout, stderr: o.stderr })
            },
            Err(m) => r == (ExecutionOutcome::SpawnError { reason: m }),
        },
{
    match run {
        Ok(o) => {
            if o.code == Some(0i32) {
                ExecutionOutcome::Success { stdout: o.stdout, stderr: o.stderr }
            } else {
                ExecutionOutcome::Failure { code: o.code, stdout: o.stdout, stderr: o.stderr }
            }
        },
        Err(m) => ExecutionOutcome::SpawnError { reason: m },
    }
}

} // verus!
