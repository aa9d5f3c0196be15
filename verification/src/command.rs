//! Commands that the library asks its caller to spawn, and the steps of a
//! multi-command plan.
use vstd::prelude::*;

verus! {

/// A process to spawn: program, arguments, working directory, the message that
/// explains a failure to spawn it, and whether a plan stops (failed) when it
/// exits unsuccessfully.
#[derive(Debug)]
pub struct Command {
    pub program: String,
    pub args: Vec<String>,
    pub cwd: Option<String>,
    pub context: Option<String>,
    pub stop_on_failure: bool,
}

/// The abstract value of a `Command`.
pub struct CommandView {
    pub program: Seq<char>,
    pub args: Seq<Seq<char>>,
    pub cwd: Option<Seq<char>>,
    pub context: Option<Seq<char>>,
    pub stop_on_failure: bool,
}

/// The characters of an optional string.
pub open spec fn opt_view(o: Option<String>) -> Option<Seq<char>> {
    match o {
        Some(s) => Some(s@),
        None => None,
    }
}

impl View for Command {
    type V = CommandView;

    open spec fn view(&self) -> CommandView {
        CommandView {
            program: self.program@,
            args: self.args.deep_view(),
            cwd: opt_view(self.cwd),
            context: opt_view(self.context),
            stop_on_failure: self.stop_on_failure,
        }
    }
}

impl Command {
    /// A command from its parts.
    pub fn new(
        program: &str,
        args: Vec<String>,
        cwd: Option<String>,
        context: Option<&str>,
        stop_on_failure: bool,
    ) -> (res: Command)
        ensures
            res@ == (CommandView {
                program: program@,
                args: args.deep_view(),
                cwd: opt_view(cwd),
                context: match context {
                    Some(c) => Some(c@),
                    None => None,
                },
                stop_on_failure,
            }),
    {
        let context = match context {
            Some(c) => Some(String::from_str(c)),
            None => None,
        };
        Command { program: String::from_str(program), args, cwd, context, stop_on_failure }
    }
}

/// What follows a finished command in a plan: the next step, or the end of the
/// plan with its result.
#[derive(Clone, Copy, Debug, PartialEq, Eq, Structural)]
pub enum Flow {
    Continue,
    Finish(bool),
}

/// What follows a command that exited (successfully or not): a plan ends with the
/// status of its last command, and ends failed at a command that stops it.
pub open spec fn flow_after_spec(stop_on_failure: bool, success: bool, is_last: bool) -> Flow {
    if is_last {
        Flow::Finish(success)
    } else if !success && stop_on_failure {
        Flow::Finish(false)
    } else {
        Flow::Continue
    }
}

/// What follows the command `cmd` of a plan once it has exited.
pub fn flow_after(cmd: &Command, success: bool, is_last: bool) -> (res: Flow)
    ensures
        res == flow_after_spec(cmd.stop_on_failure, success, is_last),
{
    if is_last {
        Flow::Finish(success)
    } else if !success && cmd.stop_on_failure {
        Flow::Finish(false)
    } else {
        Flow::Continue
    }
}

/// One step of a plan.
#[derive(Debug)]
pub enum Step {
    /// Create a directory and its parents; a failure to do so is ignored.
    CreateDir(String),
    /// Spawn a command and wait for it.
    Run(Command),
}

/// The abstract value of a `Step`.
pub enum StepView {
    CreateDir(Seq<char>),
    Run(CommandView),
}

impl View for Step {
    type V = StepView;

    open spec fn view(&self) -> StepView {
        match self {
            Step::CreateDir(d) => StepView::CreateDir(d@),
            Step::Run(c) => StepView::Run(c@),
        }
    }
}

/// The abstract value of a sequence of steps.
pub open spec fn steps_view(steps: Seq<Step>) -> Seq<StepView> {
    steps.map_values(|s: Step| s@)
}

/// Appends a copy of `s` to `v`.
pub fn push_str(v: &mut Vec<String>, s: &str)
    ensures
        final(v).deep_view() == old(v).deep_view().push(s@),
{
    let ghost before = v.deep_view();
    v.push(String::from_str(s));
    assert(v.deep_view() =~= before.push(s@));
}

/// Appends copies of `more` to `v`.
pub fn push_all(v: &mut Vec<String>, more: &Vec<String>)
    ensures
        final(v).deep_view() == old(v).deep_view() + more.deep_view(),
{
    let ghost start = v.deep_view();
    let n = more.len();
    for i in 0..n
        invariant
            n == more@.len(),
            v.deep_view() == start + more.deep_view().take(i as int),
    {
        let ghost before = v.deep_view();
        v.push(more[i].clone());
        assert(v.deep_view() =~= before.push(more[i as int]@));
        assert(more.deep_view().take(i + 1) =~= more.deep_view().take(i as int).push(
            more[i as int]@,
        ));
    }
    assert(more.deep_view().take(n as int) =~= more.deep_view());
}

/// A vector holding copies of the given strings.
pub fn strings(items: &[&str]) -> (res: Vec<String>)
    ensures
        res.deep_view() == items@.map_values(|s: &str| s@),
{
    let mut res: Vec<String> = Vec::new();
    let n = items.len();
    for i in 0..n
        invariant
            n == items@.len(),
            res.deep_view() == items@.take(i as int).map_values(|s: &str| s@),
    {
        let ghost before = res.deep_view();
        push_str(&mut res, items[i]);
        assert(items@.take(i + 1).map_values(|s: &str| s@) =~= items@.take(i as int).map_values(
            |s: &str| s@,
        ).push(items@[i as int]@));
    }
    assert(items@.take(n as int) =~= items@);
    res
}

} // verus!
