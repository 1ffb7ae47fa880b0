//! The stages of one run, from checking the tools to launching the built
//! program, and how the result of each subprocess moves the run along.

use vstd::prelude::*;
use vstd::string::*;
use crate::error::ErrorKind;
use crate::text::texts;

verus! {

/// How far a run has come.
#[derive(Clone, Copy, Debug, PartialEq, Eq, Structural)]
pub enum Stage {
    Start,
    ToolsChecked,
    Configured,
    Built,
    Ran,
    Done,
    Failed(ErrorKind),
}

/// The work a stage calls for.
#[derive(Clone, Copy, Debug, PartialEq, Eq, Structural)]
pub enum Action {
    /// Provision the tools.
    CheckTools,
    /// Call CMake to configure the build directory.
    Configure,
    /// Call CMake to build it.
    Build,
    /// Launch the built program.
    Run,
    /// Nothing to spawn; report success.
    Finish,
    /// The run is over.
    Stop,
}

/// How an attempt to run a command ended.
#[derive(Clone, Copy, Debug, PartialEq, Eq, Structural)]
pub enum Spawned {
    /// The process ran and exited, with a zero status or not.
    Exited { success: bool },
    /// No executable of that name was found.
    NotFound,
    /// The process could not be started for another reason.
    SpawnError,
}

/// The result of a command: success only for a zero exit status.
pub open spec fn spec_command_result(spawned: Spawned) -> Result<(), ErrorKind> {
    match spawned {
        Spawned::Exited { success } => if success {
            Ok(())
        } else {
            Err(ErrorKind::SubprocessFailure)
        },
        Spawned::NotFound => Err(ErrorKind::ToolNotFound),
        Spawned::SpawnError => Err(ErrorKind::Filesystem),
    }
}

/// Judges a command by how it ended: a missing executable is
/// `ToolNotFound`, a non-zero exit status `SubprocessFailure`.
pub fn command_result(spawned: Spawned) -> (r: Result<(), ErrorKind>)
    ensures
        r == spec_command_result(spawned),
{
    match spawned {
        Spawned::Exited { success } => if success {
            Ok(())
        } else {
            Err(ErrorKind::SubprocessFailure)
        },
        Spawned::NotFound => Err(ErrorKind::ToolNotFound),
        Spawned::SpawnError => Err(ErrorKind::Filesystem),
    }
}

/// Whether a probe with `--version` shows the tool to be usable: the
/// process was started and exited with status zero.
pub fn is_tool_available(probe: Spawned) -> (r: bool)
    ensures
        r == (probe == Spawned::Exited { success: true }),
{
    match probe {
        Spawned::Exited { success } => success,
        _ => false,
    }
}

/// The work that a stage calls for. `has_program` says whether a program
/// is to be launched after the build.
pub open spec fn spec_action(stage: Stage, has_program: bool) -> Action {
    match stage {
        Stage::Start => Action::CheckTools,
        Stage::ToolsChecked => Action::Configure,
        Stage::Configured => Action::Build,
        Stage::Built => if has_program {
            Action::Run
        } else {
            Action::Finish
        },
        Stage::Ran => Action::Finish,
        Stage::Done => Action::Stop,
        Stage::Failed(_) => Action::Stop,
    }
}

/// The stage after the work of `stage` ended with `result`.
pub open spec fn spec_advance(stage: Stage, has_program: bool, result: Result<(), ErrorKind>) -> Stage {
    match stage {
        Stage::Done => Stage::Done,
        Stage::Failed(e) => Stage::Failed(e),
        _ => match result {
            Err(e) => Stage::Failed(e),
            Ok(_) => match stage {
                Stage::Start => Stage::ToolsChecked,
                Stage::ToolsChecked => Stage::Configured,
                Stage::Configured => Stage::Built,
                Stage::Built => if has_program {
                    Stage::Ran
                } else {
                    Stage::Done
                },
                _ => Stage::Done,
            },
        },
    }
}

/// The stage reached from `stage` after the results, taken in order.
pub open spec fn spec_stage_after(
    stage: Stage,
    has_program: bool,
    results: Seq<Result<(), ErrorKind>>,
) -> Stage
    decreases results.len(),
{
    if results.len() == 0 {
        stage
    } else {
        spec_stage_after(
            spec_advance(stage, has_program, results[0]),
            has_program,
            results.drop_first(),
        )
    }
}

/// The work that a stage calls for.
pub fn action(stage: Stage, has_program: bool) -> (r: Action)
    ensures
        r == spec_action(stage, has_program),
{
    match stage {
        Stage::Start => Action::CheckTools,
        Stage::ToolsChecked => Action::Configure,
        Stage::Configured => Action::Build,
        Stage::Built => if has_program {
            Action::Run
        } else {
            Action::Finish
        },
        Stage::Ran => Action::Finish,
        Stage::Done => Action::Stop,
        Stage::Failed(_) => Action::Stop,
    }
}

/// Moves the run along: a success leads to the next stage, a failure to
/// `Failed` with its reason, and a run that is over stays as it is.
pub fn advance(stage: Stage, has_program: bool, result: Result<(), ErrorKind>) -> (r: Stage)
    ensures
        r == spec_advance(stage, has_program, result),
{
    match stage {
        Stage::Done => Stage::Done,
        Stage::Failed(e) => Stage::Failed(e),
        _ => match result {
            Err(e) => Stage::Failed(e),
            Ok(_) => match stage {
                Stage::Start => Stage::ToolsChecked,
                Stage::ToolsChecked => Stage::Configured,
                Stage::Configured => Stage::Built,
                Stage::Built => if has_program {
                    Stage::Ran
                } else {
                    Stage::Done
                },
                _ => Stage::Done,
            },
        },
    }
}

/// A failed run stays failed, with its first reason, whatever is
/// reported afterwards, and calls for no further work.
pub proof fn lemma_failure_is_final(
    e: ErrorKind,
    has_program: bool,
    results: Seq<Result<(), ErrorKind>>,
)
    ensures
        spec_stage_after(Stage::Failed(e), has_program, results) == Stage::Failed(e),
        spec_action(spec_stage_after(Stage::Failed(e), has_program, results), has_program)
            == Action::Stop,
    decreases results.len(),
{
    if results.len() > 0 {
        lemma_failure_is_final(e, has_program, results.drop_first());
    }
}

/// When a step fails, every later stage of the run calls for no work: a
/// failed configure is followed neither by the build nor by the program,
/// a failed build not by the program.
pub proof fn lemma_failed_step_stops_run(
    stage: Stage,
    e: ErrorKind,
    has_program: bool,
    later: Seq<Result<(), ErrorKind>>,
)
    requires
        stage != Stage::Done,
    ensures
        spec_stage_after(stage, has_program, seq![Err(e)] + later) is Failed,
        spec_action(spec_stage_after(stage, has_program, seq![Err(e)] + later), has_program)
            == Action::Stop,
{
    let results = seq![Err::<(), ErrorKind>(e)] + later;
    assert(results[0] == Err::<(), ErrorKind>(e));
    assert(results.drop_first() =~= later);
    match stage {
        Stage::Failed(first) => {
            lemma_failure_is_final(first, has_program, later);
        },
        _ => {
            lemma_failure_is_final(e, has_program, later);
        },
    }
}

/// Each subprocess is spawned only after the one before it succeeded:
/// the build follows nothing but a successful configure, and the program
/// nothing but a successful build.
pub proof fn lemma_steps_in_order(stage: Stage, has_program: bool, result: Result<(), ErrorKind>)
    ensures
        spec_advance(stage, has_program, result) == Stage::Configured ==> stage
            == Stage::ToolsChecked && result is Ok,
        spec_advance(stage, has_program, result) == Stage::Built ==> stage == Stage::Configured
            && result is Ok,
        spec_action(stage, has_program) == Action::Build ==> stage == Stage::Configured,
        spec_action(stage, has_program) == Action::Run ==> stage == Stage::Built,
{
}

/// The arguments joined by single spaces.
pub open spec fn spec_join_args(args: Seq<Seq<char>>) -> Seq<char>
    decreases args.len(),
{
    if args.len() == 0 {
        Seq::<char>::empty()
    } else if args.len() == 1 {
        args[0]
    } else {
        spec_join_args(args.drop_last()) + " "@ + args.last()
    }
}

/// A command line as it is shown to the operator: the command, a space,
/// and the arguments joined by spaces.
pub open spec fn spec_command_line(command: Seq<char>, args: Seq<Seq<char>>) -> Seq<char> {
    command + " "@ + spec_join_args(args)
}

/// The command line shown before a command runs and reported when it
/// fails.
pub fn command_line(command: &str, args: &Vec<String>) -> (r: String)
    ensures
        r@ == spec_command_line(command@, texts(args@)),
{
    let mut out = String::from_str(command);
    out.append(" ");
    let ghost all = texts(args@);
    let mut i: usize = 0;
    assert(all.subrange(0, 0) =~= Seq::<Seq<char>>::empty());
    assert(out@ =~= spec_command_line(command@, all.subrange(0, 0)));
    while i < args.len()
        invariant
            i <= args@.len(),
            all == texts(args@),
            out@ == spec_command_line(command@, all.subrange(0, i as int)),
        decreases args@.len() - i,
    {
        let ghost before = all.subrange(0, i as int);
        let ghost after = all.subrange(0, i + 1);
        assert(after.drop_last() =~= before);
        assert(after.last() == args@[i as int]@);
        if i > 0 {
            out.append(" ");
        }
        out.append(args[i].as_str());
        assert(out@ =~= spec_command_line(command@, after));
        i = i + 1;
    }
    assert(all.subrange(0, args@.len() as int) =~= all);
    out
}

/// Follows the stages from `start` through a list of results, one result
/// for the work of each stage in turn, and returns the stage reached.
pub fn replay(start: Stage, has_program: bool, results: &Vec<Result<(), ErrorKind>>) -> (r: Stage)
    ensures
        r == spec_stage_after(start, has_program, results@),
{
    let mut stage = start;
    let mut i: usize = 0;
    assert(results@.subrange(0, results@.len() as int) =~= results@);
    while i < results.len()
        invariant
            i <= results@.len(),
            spec_stage_after(start, has_program, results@) == spec_stage_after(
                stage,
                has_program,
                results@.subrange(i as int, results@.len() as int),
            ),
        decreases results@.len() - i,
    {
        assert(results@.subrange(i as int, results@.len() as int).drop_first()
            =~= results@.subrange(i + 1, results@.len() as int));
        stage = advance(stage, has_program, results[i]);
        i = i + 1;
    }
    stage
}

} // verus!
