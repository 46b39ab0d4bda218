use vstd::prelude::*;

use crate::abi::{abi_of, is_marker, AbiKind, Bindings, ImportModel};
use crate::error::{ErrorModel, FailedStage};
use crate::format::{is_binary, normalized, Translation};
use crate::pipeline::{
    compile_or_fail, quiet, react, ActionModel, EventModel, PipelineModel, Stage, StepModel,
};
use crate::report::{outcome_of, phase_label, status_of, timing_text, Phase};

verus! {

/// The place of a stage in the order of a run.
pub open spec fn stage_rank(stage: Stage) -> nat {
    match stage {
        Stage::Loading => 0,
        Stage::Translating => 1,
        Stage::Compiling => 2,
        Stage::BuildingEnvironment { .. } => 3,
        Stage::Instantiating { .. } => 4,
        Stage::Running { .. } => 5,
        Stage::Finished => 6,
    }
}

/// The place of an action in the order of a run: that of the stage which
/// waits for the action's answer.
pub open spec fn action_rank(action: ActionModel) -> nat {
    match action {
        ActionModel::Read { .. } => 0,
        ActionModel::Translate { .. } => 1,
        ActionModel::Compile { .. } => 2,
        ActionModel::BuildEnvironment => 3,
        ActionModel::Instantiate { .. } => 4,
        ActionModel::Run { .. } => 5,
        ActionModel::Finish { .. } => 6,
    }
}

/// The place in the order of a run of the stage that was waiting when a
/// failure at `failed` arose.
pub open spec fn failure_rank(failed: FailedStage) -> nat {
    match failed {
        FailedStage::Load => 0,
        FailedStage::Normalize => 1,
        FailedStage::Compile => 2,
        FailedStage::AbiInit => 3,
        FailedStage::Instantiate => 4,
        FailedStage::Execute => 5,
    }
}

/// The steps that a run takes in answer to `events`, given in order. An
/// answer that is not waited for is passed over.
pub open spec fn steps_taken(run: PipelineModel, events: Seq<EventModel>) -> Seq<StepModel>
    decreases events.len(),
{
    if events.len() == 0 {
        seq![]
    } else {
        match react(run, events.first()) {
            Some((stage, step)) => seq![step] + steps_taken(run.at(stage), events.drop_first()),
            None => steps_taken(run, events.drop_first()),
        }
    }
}

/// Every step moves the run forward to the stage that waits for the answer
/// to the step's action. So no stage is entered twice and nothing is asked
/// again.
pub proof fn step_moves_forward(run: PipelineModel, event: EventModel)
    ensures
        react(run, event) matches Some((stage, step)) ==> stage_rank(run.stage) < stage_rank(stage)
            && action_rank(step.action) == stage_rank(stage),
{
}

/// A finished run is over: it answers no event.
pub proof fn finished_is_terminal(run: PipelineModel, event: EventModel)
    requires
        run.stage == Stage::Finished,
    ensures
        react(run, event) is None,
{
}

/// A step that reports a result finishes the run, and a run is finished by
/// no other step.
pub proof fn finish_ends_the_run(run: PipelineModel, event: EventModel)
    ensures
        react(run, event) matches Some((stage, step)) ==> (stage == Stage::Finished
            <==> step.action is Finish),
{
}

/// A failure is reported by the stage at which it arose: the run was then
/// waiting at that stage and had got no further.
pub proof fn failure_comes_from_its_stage(run: PipelineModel, event: EventModel)
    ensures
        react(run, event) matches Some((_, step)) ==> (step.action matches ActionModel::Finish {
            result: Err(error),
        } ==> stage_rank(run.stage) == failure_rank(error.stage())),
{
}

/// The compiler is only ever handed bytes that are the raw input with the
/// binary magic in front, or what the translator returned.
pub proof fn compiler_gets_normalized_bytes(run: PipelineModel, event: EventModel)
    ensures
        react(run, event) matches Some((_, step)) ==> (step.action matches ActionModel::Compile {
            binary,
        } ==> (event == EventModel::Read(Ok(binary)) && is_binary(binary)) || event
            == EventModel::Translated(Ok(binary))),
{
}

/// A raw input with the binary magic in front goes to the compiler as it is,
/// and the translator is not asked.
pub proof fn binary_input_goes_to_the_compiler(run: PipelineModel, raw: Seq<u8>)
    requires
        run.stage == Stage::Loading,
        is_binary(raw),
    ensures
        react(run, EventModel::Read(Ok(raw))) == Some(
            (
                Stage::Compiling,
                StepModel { line: None, action: ActionModel::Compile { binary: raw } },
            ),
        ),
{
}

/// What the run does with the bytes of the file is to normalize them: a
/// textual input goes to the translator whole, and the step that follows
/// the bytes, or the translator's answer to them, is the one that follows
/// their normal form.
pub proof fn pipeline_normalizes_its_input(
    run: PipelineModel,
    raw: Seq<u8>,
    translation: Translation,
)
    requires
        run.stage == Stage::Loading,
    ensures
        is_binary(raw) ==> react(run, EventModel::Read(Ok(raw))) == Some(
            compile_or_fail(normalized(raw, translation)),
        ),
        !is_binary(raw) ==> react(run, EventModel::Read(Ok(raw))) == Some(
            (Stage::Translating, quiet(ActionModel::Translate { text: raw })),
        ),
        !is_binary(raw) ==> react(
            run.at(Stage::Translating),
            EventModel::Translated(translation),
        ) == Some(compile_or_fail(normalized(raw, translation))),
{
}

/// A module whose import table holds the marker is resolved to the enhanced
/// ABI, and one whose table holds none to the baseline ABI, whatever else
/// is in the table.
pub proof fn abi_follows_the_marker(imports: Seq<ImportModel>)
    ensures
        (exists|i: int| 0 <= i < imports.len() && is_marker(#[trigger] imports[i])) ==> abi_of(
            imports,
        ) == AbiKind::Enhanced,
        (forall|i: int| 0 <= i < imports.len() ==> !is_marker(#[trigger] imports[i])) ==> abi_of(
            imports,
        ) == AbiKind::Baseline,
{
}

/// The environment of the enhanced ABI is built before the module is
/// instantiated, and only for a module that expects that ABI: the
/// instantiator gets the environment's bindings exactly after the
/// environment was built, and empty bindings exactly for the baseline ABI.
pub proof fn bindings_follow_the_abi(
    run: PipelineModel,
    nanos: u64,
    imports: Seq<ImportModel>,
)
    requires
        run.stage == Stage::Compiling,
    ensures
        abi_of(imports) == AbiKind::Baseline ==> react(
            run,
            EventModel::Compiled { nanos, imports: Ok(imports) },
        ) == Some(
            (
                Stage::Instantiating { abi: AbiKind::Baseline, compile_nanos: nanos },
                quiet(ActionModel::Instantiate { bindings: Bindings::Empty }),
            ),
        ),
        abi_of(imports) == AbiKind::Enhanced ==> react(
            run,
            EventModel::Compiled { nanos, imports: Ok(imports) },
        ) == Some(
            (Stage::BuildingEnvironment { compile_nanos: nanos }, quiet(ActionModel::BuildEnvironment)),
        ),
        react(
            run.at(Stage::BuildingEnvironment { compile_nanos: nanos }),
            EventModel::EnvironmentBuilt(Ok(())),
        ) == Some(
            (
                Stage::Instantiating { abi: AbiKind::Enhanced, compile_nanos: nanos },
                quiet(ActionModel::Instantiate { bindings: Bindings::Environment }),
            ),
        ),
{
}

/// A run that is finished takes no step, whatever it is told.
pub proof fn finished_run_takes_no_step(run: PipelineModel, events: Seq<EventModel>)
    requires
        run.stage == Stage::Finished,
    ensures
        steps_taken(run, events) == Seq::<StepModel>::empty(),
    decreases events.len(),
{
    if events.len() > 0 {
        finished_run_takes_no_step(run, events.drop_first());
    }
}

/// Whatever the driver reports and in whatever order, the actions of a run
/// come in the order of the stages and each at most once: every action lies
/// later in that order than the one before it, and than the stage at which
/// the run stood at first.
pub proof fn steps_are_ordered(run: PipelineModel, events: Seq<EventModel>)
    ensures
        forall|i: int|
            0 <= i < steps_taken(run, events).len() ==> stage_rank(run.stage) < action_rank(
                #[trigger] steps_taken(run, events)[i].action,
            ),
        forall|i: int, j: int|
            0 <= i < j < steps_taken(run, events).len() ==> action_rank(
                #[trigger] steps_taken(run, events)[i].action,
            ) < action_rank(#[trigger] steps_taken(run, events)[j].action),
    decreases events.len(),
{
    if events.len() > 0 {
        let rest = events.drop_first();
        match react(run, events.first()) {
            Some((stage, step)) => {
                steps_are_ordered(run.at(stage), rest);
                let later = steps_taken(run.at(stage), rest);
                let all = steps_taken(run, events);
                assert(all =~= seq![step] + later);
                assert forall|i: int| 0 <= i < all.len() implies stage_rank(run.stage)
                    < action_rank(#[trigger] all[i].action) by {
                    if i > 0 {
                        assert(all[i] == later[i - 1]);
                    }
                }
                assert forall|i: int, j: int| 0 <= i < j < all.len() implies action_rank(
                    #[trigger] all[i].action,
                ) < action_rank(#[trigger] all[j].action) by {
                    assert(all[j] == later[j - 1]);
                    if i > 0 {
                        assert(all[i] == later[i - 1]);
                    }
                }
            },
            None => {
                steps_are_ordered(run, rest);
            },
        }
    }
}

/// The first failure is the end: the step that reports an error is the last
/// step of the run, and before it nothing was asked of a stage later than
/// the one that failed.
pub proof fn failure_stops_the_run(
    run: PipelineModel,
    events: Seq<EventModel>,
    at: int,
    error: ErrorModel,
)
    requires
        0 <= at < steps_taken(run, events).len(),
        steps_taken(run, events)[at].action == (ActionModel::Finish { result: Err(error) }),
    ensures
        at == steps_taken(run, events).len() - 1,
        stage_rank(run.stage) <= failure_rank(error.stage()),
        forall|i: int|
            0 <= i < at ==> action_rank(#[trigger] steps_taken(run, events)[i].action)
                <= failure_rank(error.stage()),
    decreases events.len(),
{
    if events.len() > 0 {
        let rest = events.drop_first();
        match react(run, events.first()) {
            Some((stage, step)) => {
                let later = steps_taken(run.at(stage), rest);
                let all = steps_taken(run, events);
                assert(all =~= seq![step] + later);
                if at == 0 {
                    finished_run_takes_no_step(run.at(stage), rest);
                } else {
                    assert(all[at] == later[at - 1]);
                    failure_stops_the_run(run.at(stage), rest, at - 1, error);
                    assert forall|i: int| 0 <= i < at implies action_rank(
                        #[trigger] all[i].action,
                    ) <= failure_rank(error.stage()) by {
                        if i > 0 {
                            assert(all[i] == later[i - 1]);
                        }
                    }
                }
            },
            None => {
                failure_stops_the_run(run, rest, at, error);
            },
        }
    }
}

/// Where the translator fails, the run ends with the format conversion
/// error and the compiler is never asked.
pub proof fn failed_translation_never_compiles(
    run: PipelineModel,
    events: Seq<EventModel>,
    at: int,
    cause: Seq<char>,
)
    requires
        0 <= at < steps_taken(run, events).len(),
        steps_taken(run, events)[at].action == (ActionModel::Finish {
            result: Err(ErrorModel::FormatConversion(cause)),
        }),
    ensures
        at == steps_taken(run, events).len() - 1,
        forall|i: int|
            0 <= i < steps_taken(run, events).len() ==> !(
            #[trigger] steps_taken(run, events)[i].action is Compile),
{
    failure_stops_the_run(run, events, at, ErrorModel::FormatConversion(cause));
}

/// Where the instantiator fails, the run ends with the instantiation error,
/// the entry point is never called, and the exit status is not zero.
pub proof fn failed_instantiation_never_runs(
    run: PipelineModel,
    events: Seq<EventModel>,
    at: int,
    cause: Seq<char>,
)
    requires
        0 <= at < steps_taken(run, events).len(),
        steps_taken(run, events)[at].action == (ActionModel::Finish {
            result: Err(ErrorModel::Instantiation(cause)),
        }),
    ensures
        at == steps_taken(run, events).len() - 1,
        forall|i: int|
            0 <= i < steps_taken(run, events).len() ==> !(
            #[trigger] steps_taken(run, events)[i].action is Run),
        status_of(outcome_of(Err(ErrorModel::Instantiation(cause)))) != 0,
{
    failure_stops_the_run(run, events, at, ErrorModel::Instantiation(cause));
}

/// Whether `line` is the line that reports the duration of `phase`, for
/// some duration.
pub open spec fn reports(line: Option<Seq<char>>, phase: Phase) -> bool {
    exists|nanos: u64| line == Some(#[trigger] timing_text(phase, nanos))
}

/// What a step says goes with what it asks: the compile time is reported
/// when the entry point is about to be called, the run time when the run
/// has succeeded, and every other step is silent.
pub open spec fn says_what_is_due(step: StepModel) -> bool {
    match step.action {
        ActionModel::Run { .. } => reports(step.line, Phase::Compile),
        ActionModel::Finish { result: Ok(_) } => reports(step.line, Phase::Run),
        _ => step.line is None,
    }
}

/// The lines that the steps say, in order.
pub open spec fn lines_of(steps: Seq<StepModel>) -> Seq<Seq<char>>
    decreases steps.len(),
{
    if steps.len() == 0 {
        seq![]
    } else {
        match steps.first().line {
            Some(line) => seq![line] + lines_of(steps.drop_first()),
            None => lines_of(steps.drop_first()),
        }
    }
}

/// No line reports both a compile time and a run time.
pub proof fn reports_are_distinct(line: Option<Seq<char>>)
    ensures
        !(reports(line, Phase::Compile) && reports(line, Phase::Run)),
{
    reveal_strlit("compile time: ");
    reveal_strlit("run time: ");
    if reports(line, Phase::Compile) && reports(line, Phase::Run) {
        let a = choose|nanos: u64| line == Some(#[trigger] timing_text(Phase::Compile, nanos));
        let b = choose|nanos: u64| line == Some(#[trigger] timing_text(Phase::Run, nanos));
        assert(timing_text(Phase::Compile, a)[0] == phase_label(Phase::Compile)[0]);
        assert(timing_text(Phase::Run, b)[0] == phase_label(Phase::Run)[0]);
    }
}

/// Every step of a run says what is due with its action, and nothing else.
pub proof fn steps_say_what_is_due(run: PipelineModel, events: Seq<EventModel>)
    ensures
        forall|i: int|
            0 <= i < steps_taken(run, events).len() ==> says_what_is_due(
                #[trigger] steps_taken(run, events)[i],
            ),
    decreases events.len(),
{
    if events.len() > 0 {
        let rest = events.drop_first();
        match react(run, events.first()) {
            Some((stage, step)) => {
                steps_say_what_is_due(run.at(stage), rest);
                let later = steps_taken(run.at(stage), rest);
                let all = steps_taken(run, events);
                assert(all =~= seq![step] + later);
                assert(says_what_is_due(step)) by {
                    if let Some(line) = step.line {
                        if let Stage::Instantiating { abi, compile_nanos } = run.stage {
                            assert(line == timing_text(Phase::Compile, compile_nanos));
                        }
                        if let EventModel::Ran { nanos, exit } = events.first() {
                            assert(line == timing_text(Phase::Run, nanos));
                        }
                    }
                }
                assert forall|i: int| 0 <= i < all.len() implies says_what_is_due(
                    #[trigger] all[i],
                ) by {
                    if i > 0 {
                        assert(all[i] == later[i - 1]);
                    }
                }
            },
            None => {
                steps_say_what_is_due(run, rest);
                assert(steps_taken(run, events) == steps_taken(run, rest));
            },
        }
    } else {
        assert(steps_taken(run, events).len() == 0);
    }
}

/// Where the guest traps, the run ends with the execution error and no
/// line reports a run time, however long the guest ran.
pub proof fn trap_reports_no_run_time(
    run: PipelineModel,
    events: Seq<EventModel>,
    at: int,
    cause: Seq<char>,
)
    requires
        0 <= at < steps_taken(run, events).len(),
        steps_taken(run, events)[at].action == (ActionModel::Finish {
            result: Err(ErrorModel::Execution(cause)),
        }),
    ensures
        at == steps_taken(run, events).len() - 1,
        forall|i: int|
            0 <= i < steps_taken(run, events).len() ==> !reports(
                #[trigger] steps_taken(run, events)[i].line,
                Phase::Run,
            ),
{
    failure_stops_the_run(run, events, at, ErrorModel::Execution(cause));
    steps_say_what_is_due(run, events);
    let all = steps_taken(run, events);
    assert forall|i: int| 0 <= i < all.len() implies !reports(#[trigger] all[i].line, Phase::Run) by {
        assert(says_what_is_due(all[i]));
        reports_are_distinct(all[i].line);
        if i < at {
            assert(action_rank(all[i].action) <= 5);
        }
        if reports(all[i].line, Phase::Run) {
            let n = choose|nanos: u64| all[i].line == Some(#[trigger] timing_text(Phase::Run, nanos));
            assert(all[i].line is Some);
        }
    }
}

/// A run that succeeds says exactly what remains to be said: from any stage
/// before the guest runs, the compile time and then the run time; while the
/// guest runs, the run time alone. The step that reports the success is the
/// last one.
pub proof fn success_reports_both_times(run: PipelineModel, events: Seq<EventModel>, at: int)
    requires
        0 <= at < steps_taken(run, events).len(),
        steps_taken(run, events)[at].action == (ActionModel::Finish { result: Ok(()) }),
    ensures
        at == steps_taken(run, events).len() - 1,
        stage_rank(run.stage) <= 5,
        stage_rank(run.stage) <= 4 ==> {
            let lines = lines_of(steps_taken(run, events));
            &&& lines.len() == 2
            &&& reports(Some(lines[0]), Phase::Compile)
            &&& reports(Some(lines[1]), Phase::Run)
        },
        stage_rank(run.stage) == 5 ==> {
            let lines = lines_of(steps_taken(run, events));
            &&& lines.len() == 1
            &&& reports(Some(lines[0]), Phase::Run)
        },
    decreases events.len(),
{
    if events.len() > 0 {
        let rest = events.drop_first();
        match react(run, events.first()) {
            Some((stage, step)) => {
                let later = steps_taken(run.at(stage), rest);
                let all = steps_taken(run, events);
                assert(all =~= seq![step] + later);
                assert(all.first() == step);
                assert(all.drop_first() =~= later);
                if stage == Stage::Finished {
                    finished_run_takes_no_step(run.at(stage), rest);
                    assert(lines_of(later) =~= Seq::<Seq<char>>::empty());
                    if let EventModel::Ran { nanos, exit } = events.first() {
                        assert(step.line == Some(timing_text(Phase::Run, nanos)));
                        assert(lines_of(all) =~= seq![timing_text(Phase::Run, nanos)]);
                    }
                } else {
                    assert(all[at] == later[at - 1]);
                    success_reports_both_times(run.at(stage), rest, at - 1);
                    if let Stage::Instantiating { abi, compile_nanos } = run.stage {
                        assert(step.line == Some(timing_text(Phase::Compile, compile_nanos)));
                        assert(lines_of(all) =~= seq![timing_text(Phase::Compile, compile_nanos)]
                            + lines_of(later));
                    } else {
                        assert(step.line is None);
                        assert(lines_of(all) =~= lines_of(later));
                    }
                }
            },
            None => {
                assert(steps_taken(run, events) == steps_taken(run, rest));
                success_reports_both_times(run, rest, at);
            },
        }
    }
}

} // verus!
