//! Remote steps: a command to run with administrative rights, and what its
//! result must show for the work to go on.
//!
//! A recipe is a list of steps. The caller runs each step's command, and
//! where the command failed and the step has a fallback, the fallback. It
//! then hands the result of the command that ran last to [`Step::check`],
//! which says whether to go on; the first error ends the recipe for that
//! server.

use vstd::prelude::*;
use vstd::string::*;
use crate::ssh::CommandResult;
use crate::text::{concat, contains_text, str_contains, views};
use crate::utils::{failure_message, failure_text, ServiceCommand};

verus! {

/// What the result of a step must show.
#[derive(Debug)]
pub enum Expect {
    /// Nothing: the step counts as done however the command ended.
    Nothing,
    /// Exit status 0; otherwise the error is `message`.
    Success { message: String },
    /// Exit status 0; otherwise the error tells `what` failed, the status
    /// and the beginning of the output.
    SuccessOrReport { what: String },
    /// `needle` somewhere in the output; otherwise the error is `message`,
    /// followed by the output where `with_output` is set.
    Contains { needle: String, message: String, with_output: bool },
    /// An exit status other than 0; otherwise the error is `message`.
    Failure { message: String },
}

/// One step of a recipe.
#[derive(Debug)]
pub struct Step {
    pub command: String,
    /// The command to run as well if `command` fails.
    pub fallback: Option<String>,
    pub expect: Expect,
}

/// The error that `expect` finds in a result, if any.
pub open spec fn verdict(expect: Expect, exit_status: u32, output: Seq<char>) -> Option<Seq<char>> {
    match expect {
        Expect::Nothing => None,
        Expect::Success { message } => if exit_status == 0 {
            None
        } else {
            Some(message@)
        },
        Expect::SuccessOrReport { what } => if exit_status == 0 {
            None
        } else {
            Some(failure_text(what@, exit_status, output))
        },
        Expect::Contains { needle, message, with_output } => if contains_text(output, needle@) {
            None
        } else if with_output {
            Some(message@ + output)
        } else {
            Some(message@)
        },
        Expect::Failure { message } => if exit_status != 0 {
            None
        } else {
            Some(message@)
        },
    }
}

impl Step {
    /// A step whose result does not matter.
    pub fn run(command: String) -> (s: Step)
        ensures
            s.command == command,
            s.fallback is None,
            s.expect is Nothing,
    {
        Step { command, fallback: None, expect: Expect::Nothing }
    }

    /// A step that must succeed, with a fixed error.
    pub fn require(command: String, message: String) -> (s: Step)
        ensures
            s.command == command,
            s.fallback is None,
            s.expect == (Expect::Success { message }),
    {
        Step { command, fallback: None, expect: Expect::Success { message } }
    }

    /// A step that must succeed, with an error that reports the output.
    pub fn require_or_report(command: String, what: String) -> (s: Step)
        ensures
            s.command == command,
            s.fallback is None,
            s.expect == (Expect::SuccessOrReport { what }),
    {
        Step { command, fallback: None, expect: Expect::SuccessOrReport { what } }
    }

    /// A step on a service: the fallback is tried if the command fails, and
    /// neither result matters.
    pub fn service(command: ServiceCommand) -> (s: Step)
        ensures
            s.command == command.primary,
            s.fallback == Some(command.fallback),
            s.expect is Nothing,
    {
        Step { command: command.primary, fallback: Some(command.fallback), expect: Expect::Nothing }
    }

    /// Reads the result of the step: `Ok` if the work goes on, else the
    /// error that ends it.
    pub fn check(&self, result: &CommandResult) -> (r: Result<(), String>)
        ensures
            match verdict(self.expect, result.exit_status, result.output@) {
                None => r is Ok,
                Some(text) => r matches Err(m) && m@ == text,
            },
    {
        match &self.expect {
            Expect::Nothing => Ok(()),
            Expect::Success { message } => {
                if result.exit_status == 0 {
                    Ok(())
                } else {
                    Err(message.clone())
                }
            },
            Expect::SuccessOrReport { what } => {
                if result.exit_status == 0 {
                    Ok(())
                } else {
                    Err(failure_message(what.as_str(), result))
                }
            },
            Expect::Contains { needle, message, with_output } => {
                if str_contains(result.output.as_str(), needle.as_str()) {
                    Ok(())
                } else if *with_output {
                    Err(concat(message.as_str(), result.output.as_str()))
                } else {
                    Err(message.clone())
                }
            },
            Expect::Failure { message } => {
                if result.exit_status != 0 {
                    Ok(())
                } else {
                    Err(message.clone())
                }
            },
        }
    }
}

impl Step {
    /// Whether the fallback is to be run after the command ended as `first`:
    /// it is when the command failed and the step has a fallback.
    pub fn fallback_due(&self, first: &CommandResult) -> (r: bool)
        ensures
            r == (first.exit_status != 0 && self.fallback is Some),
    {
        first.exit_status != 0 && self.fallback.is_some()
    }
}

/// The first step of a recipe that failed, with its error, where
/// `results[i]` is the result of the command that ran last for step `i`:
/// the least position whose result does not show what the step expects.
pub open spec fn first_failed(steps: Seq<Step>, results: Seq<CommandResult>) -> Option<
    (int, Seq<char>),
>
    decreases results.len(),
{
    if results.len() == 0 {
        None
    } else {
        match first_failed(steps, results.drop_last()) {
            Some(failure) => Some(failure),
            None => match verdict(
                steps[results.len() - 1].expect,
                results.last().exit_status,
                results.last().output@,
            ) {
                Some(text) => Some((results.len() - 1, text)),
                None => None,
            },
        }
    }
}

/// A failure as plain values.
pub open spec fn failure_view(r: Option<(usize, String)>) -> Option<(int, Seq<char>)> {
    match r {
        Some((at, message)) => Some((at as int, message@)),
        None => None,
    }
}

/// Reads the results of the steps run so far, `results[i]` being the result
/// of the command that ran last for step `i`. The first step whose result
/// does not show what the step expects ends the recipe: its position and
/// its error are returned, and the steps behind it are not to be run. With
/// `None` the recipe goes on.
pub fn first_failure(steps: &Vec<Step>, results: &Vec<CommandResult>) -> (r: Option<
    (usize, String),
>)
    requires
        results.len() <= steps.len(),
    ensures
        failure_view(r) == first_failed(steps@, results@),
{
    let mut i: usize = 0;
    assert(results@.take(0) =~= Seq::<CommandResult>::empty());
    while i < results.len()
        invariant
            i <= results.len() <= steps.len(),
            first_failed(steps@, results@.take(i as int)) is None,
        decreases results.len() - i,
    {
        proof {
            let now = results@.take(i + 1);
            assert(now.drop_last() =~= results@.take(i as int));
            assert(now.last() == results@[i as int]);
        }
        match steps[i].check(&results[i]) {
            Ok(_) => {},
            Err(message) => {
                proof {
                    lemma_failure_stays(steps@, results@, i + 1);
                }
                return Some((i, message));
            },
        }
        i += 1;
    }
    proof {
        assert(results@.take(results.len() as int) =~= results@);
    }
    None
}

/// A failure among the first `n` results is the first failure among all.
proof fn lemma_failure_stays(steps: Seq<Step>, results: Seq<CommandResult>, n: int)
    requires
        0 <= n <= results.len(),
        first_failed(steps, results.take(n)) is Some,
    ensures
        first_failed(steps, results) == first_failed(steps, results.take(n)),
    decreases results.len() - n,
{
    if n < results.len() {
        let shorter = results.drop_last();
        assert(shorter.take(n) =~= results.take(n));
        lemma_failure_stays(steps, shorter, n);
    } else {
        assert(results.take(n) =~= results);
    }
}

/// A `Step` as plain values: the command, the fallback, and for each
/// possible result the error found.
pub ghost struct StepView {
    pub command: Seq<char>,
    pub fallback: Option<Seq<char>>,
    pub expect: ExpectView,
}

/// An `Expect` as plain values.
pub ghost enum ExpectView {
    Nothing,
    Success { message: Seq<char> },
    SuccessOrReport { what: Seq<char> },
    Contains { needle: Seq<char>, message: Seq<char>, with_output: bool },
    Failure { message: Seq<char> },
}

impl View for Expect {
    type V = ExpectView;

    open spec fn view(&self) -> ExpectView {
        match *self {
            Expect::Nothing => ExpectView::Nothing,
            Expect::Success { message } => ExpectView::Success { message: message@ },
            Expect::SuccessOrReport { what } => ExpectView::SuccessOrReport { what: what@ },
            Expect::Contains { needle, message, with_output } => ExpectView::Contains {
                needle: needle@,
                message: message@,
                with_output,
            },
            Expect::Failure { message } => ExpectView::Failure { message: message@ },
        }
    }
}

impl View for Step {
    type V = StepView;

    open spec fn view(&self) -> StepView {
        StepView {
            command: self.command@,
            fallback: match self.fallback {
                Some(f) => Some(f@),
                None => None,
            },
            expect: self.expect@,
        }
    }
}

/// The views of a list of steps.
pub open spec fn step_views(steps: Seq<Step>) -> Seq<StepView> {
    Seq::new(steps.len(), |i: int| steps[i]@)
}

/// A step whose result does not matter.
pub open spec fn run_step(command: Seq<char>) -> StepView {
    StepView { command, fallback: None, expect: ExpectView::Nothing }
}

/// A step that must succeed, with the fixed error `message`.
pub open spec fn require_step(command: Seq<char>, message: Seq<char>) -> StepView {
    StepView { command, fallback: None, expect: ExpectView::Success { message } }
}

/// A step that must succeed, with an error that reports `what` failed.
pub open spec fn report_step(command: Seq<char>, what: Seq<char>) -> StepView {
    StepView { command, fallback: None, expect: ExpectView::SuccessOrReport { what } }
}

/// A step on a service.
pub open spec fn service_step(primary: Seq<char>, fallback: Seq<char>) -> StepView {
    StepView { command: primary, fallback: Some(fallback), expect: ExpectView::Nothing }
}

/// A step whose output must hold `needle`.
pub open spec fn contains_step(
    command: Seq<char>,
    needle: Seq<char>,
    message: Seq<char>,
    with_output: bool,
) -> StepView {
    StepView {
        command,
        fallback: None,
        expect: ExpectView::Contains { needle, message, with_output },
    }
}

/// Appends a step to a recipe.
pub fn push_step(steps: &mut Vec<Step>, step: Step)
    ensures
        step_views(final(steps)@) == step_views(old(steps)@).push(step@),
{
    steps.push(step);
    assert(step_views(steps@) =~= step_views(old(steps)@).push(step@));
}

/// A step that must succeed for each command, each with the error
/// `prefix` followed by the command.
pub open spec fn command_steps(commands: Seq<Seq<char>>, prefix: Seq<char>) -> Seq<StepView> {
    Seq::new(commands.len(), |i: int| require_step(commands[i], prefix + commands[i]))
}

/// Appends one step per command: each must succeed, and the error of one
/// that fails is `prefix` followed by the command.
pub fn push_command_steps(steps: &mut Vec<Step>, commands: &Vec<String>, prefix: &str)
    ensures
        step_views(final(steps)@) == step_views(old(steps)@) + command_steps(
            views(commands@),
            prefix@,
        ),
{
    let ghost start = step_views(steps@);
    let ghost all = views(commands@);
    let mut i: usize = 0;
    assert(start + command_steps(all.take(0), prefix@) =~= start);
    while i < commands.len()
        invariant
            i <= commands.len(),
            all == views(commands@),
            step_views(steps@) == start + command_steps(all.take(i as int), prefix@),
        decreases commands.len() - i,
    {
        let command = commands[i].clone();
        let message = concat(prefix, command.as_str());
        let ghost before = step_views(steps@);
        push_step(steps, Step::require(command, message));
        proof {
            assert(command_steps(all.take(i + 1), prefix@) =~= command_steps(
                all.take(i as int),
                prefix@,
            ).push(require_step(all[i as int], prefix@ + all[i as int])));
            assert(before.push(require_step(all[i as int], prefix@ + all[i as int])) =~= start
                + command_steps(all.take(i + 1), prefix@));
        }
        i += 1;
    }
    proof {
        assert(all.take(commands.len() as int) =~= all);
    }
}

} // verus!
