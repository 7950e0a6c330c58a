use vstd::prelude::*;
use vstd::string::StringExecFns;

verus! {

/// The immutable result of running one external command: the numeric exit
/// code when the process terminated normally (`None` means it was killed by
/// a signal), and the captured output streams as text.
#[derive(Debug, Clone)]
pub struct Execution {
    pub exit_code: Option<i32>,
    pub stdout: Option<String>,
    pub stderr: Option<String>,
}

impl Execution {
    /// The exit code, if the process terminated normally.
    pub fn code(&self) -> (r: Option<i32>)
        ensures
            r == self.exit_code,
    {
        self.exit_code
    }

    /// The captured standard output, or the empty string when none was
    /// captured.
    pub fn stdout(&self) -> (r: String)
        ensures
            r@ == match self.stdout {
                Some(s) => s@,
                None => Seq::<char>::empty(),
            },
    {
        match &self.stdout {
            Some(s) => s.clone(),
            None => String::new(),
        }
    }

    /// The captured standard error, or the empty string when none was
    /// captured.
    pub fn stderr(&self) -> (r: String)
        ensures
            r@ == match self.stderr {
                Some(s) => s@,
                None => Seq::<char>::empty(),
            },
    {
        match &self.stderr {
            Some(s) => s.clone(),
            None => String::new(),
        }
    }
}

/// Why an executor could not produce an [`Execution`] at all. A tool that
/// ran but exited non-zero is not an error at this level: that outcome is
/// reported inside the `Execution` and interpreting it is the caller's
/// responsibility.
#[derive(Debug, Clone, PartialEq)]
pub enum ExecError {
    /// An empty command sequence was handed to the executor.
    EmptyCommand,
    /// The named command could not be started at all; carries the attempted
    /// command name and the operating system's message.
    SpawnFailure { command: String, reason: String },
}

impl ExecError {
    /// The one human-readable line describing this failure.
    pub open spec fn spec_message(&self) -> Seq<char> {
        match self {
            ExecError::EmptyCommand => "No command given"@,
            ExecError::SpawnFailure { command, reason } => "Could not run command '"@ + command@
                + "': "@ + reason@,
        }
    }

    /// Renders the failure as one human-readable line.
    pub fn message(&self) -> (r: String)
        ensures
            r@ == self.spec_message(),
    {
        match self {
            ExecError::EmptyCommand => "No command given".to_owned(),
            ExecError::SpawnFailure { command, reason } => {
                let mut m = "Could not run command '".to_owned();
                m.append(command.as_str());
                m.append("': ");
                m.append(reason.as_str());
                proof {
                    assert(m@ =~= self.spec_message());
                }
                m
            },
        }
    }
}

/// Checks a run request the way an operating-system executor must before
/// spawning anything: an empty command sequence is refused, every other
/// request is left to the outside tool's own error reporting.
pub fn validate_run_args(args: &Vec<String>) -> (r: Result<(), ExecError>)
    ensures
        match r {
            Ok(u) => args@.len() > 0,
            Err(e) => args@.len() == 0 && e == ExecError::EmptyCommand,
        },
{
    if args.len() == 0 {
        Err(ExecError::EmptyCommand)
    } else {
        Ok(())
    }
}

/// The capability to run one external command and wait for it. This is the
/// only point of contact with process creation; everything above depends on
/// this contract alone, so a recording implementation can stand in for the
/// operating system in tests.
pub trait Executor {
    /// Every command this executor has been asked to run, in order; each
    /// command is its full argument sequence. An implementation backed by
    /// the operating system, living outside the verifier, leaves this at its
    /// default, about which nothing is known; the recording implementation
    /// overrides it with its record.
    open spec fn history(&self) -> Seq<Seq<Seq<char>>> {
        vstd::pervasive::arbitrary()
    }

    /// Every outcome this executor has returned, in order. Like
    /// [`Self::history`], this is abstract for an implementation backed by
    /// the operating system and recorded by the test implementation.
    open spec fn outcomes(&self) -> Seq<Result<Execution, ExecError>> {
        vstd::pervasive::arbitrary()
    }

    /// Runs `args` as one external command and waits for it to terminate.
    /// Which outcome comes back belongs to the outside world; what is
    /// promised is that exactly this command was issued and that the
    /// returned value is exactly the outcome recorded for it.
    fn run(&mut self, args: Vec<String>) -> (r: Result<Execution, ExecError>)
        ensures
            final(self).history() == old(self).history().push(args.deep_view()),
            final(self).outcomes() == old(self).outcomes().push(r),
    ;
}

/// An executor for tests: it hands out pre-arranged outcomes in order
/// instead of spawning anything, and records every command it was asked to
/// run.
pub struct ScriptedExecutor {
    responses: Vec<Result<Execution, ExecError>>,
    calls: Vec<Vec<String>>,
    handed_out: Ghost<Seq<Result<Execution, ExecError>>>,
}

impl ScriptedExecutor {
    /// The outcomes still waiting to be handed out, in order.
    pub closed spec fn spec_responses(&self) -> Seq<Result<Execution, ExecError>> {
        self.responses@
    }

    /// Arranges the outcomes that successive `run` calls will return.
    pub fn new(responses: Vec<Result<Execution, ExecError>>) -> (r: Self)
        ensures
            r.spec_responses() == responses@,
            r.history() == Seq::<Seq<Seq<char>>>::empty(),
            r.outcomes() == Seq::<Result<Execution, ExecError>>::empty(),
    {
        let r = ScriptedExecutor {
            responses,
            calls: Vec::new(),
            handed_out: Ghost(Seq::empty()),
        };
        proof {
            assert(r.history() =~= Seq::<Seq<Seq<char>>>::empty());
        }
        r
    }

    /// The commands this executor was asked to run, in order.
    pub fn calls(&self) -> (r: &Vec<Vec<String>>)
        ensures
            r.deep_view() == self.history(),
    {
        &self.calls
    }
}

impl Executor for ScriptedExecutor {
    closed spec fn history(&self) -> Seq<Seq<Seq<char>>> {
        self.calls.deep_view()
    }

    closed spec fn outcomes(&self) -> Seq<Result<Execution, ExecError>> {
        self.handed_out@
    }

    fn run(&mut self, args: Vec<String>) -> (r: Result<Execution, ExecError>)
        ensures
            old(self).spec_responses().len() > 0 ==> {
                &&& r == old(self).spec_responses()[0]
                &&& final(self).spec_responses() == old(self).spec_responses().drop_first()
            },
            old(self).spec_responses().len() == 0 ==> {
                &&& r is Err
                &&& final(self).spec_responses().len() == 0
            },
    {
        self.calls.push(args);
        proof {
            assert(self.calls.deep_view() =~= old(self).calls.deep_view().push(args.deep_view()));
        }
        let r = if self.responses.len() > 0 {
            let response = self.responses.remove(0);
            proof {
                assert(self.responses@ =~= old(self).responses@.drop_first());
            }
            response
        } else {
            Err(
                ExecError::SpawnFailure {
                    command: String::new(),
                    reason: "no scripted outcome left".to_owned(),
                },
            )
        };
        self.handed_out = Ghost(self.handed_out@.push(r));
        r
    }
}

} // verus!
