use vstd::prelude::*;

use crate::abi::{
    abi_of, bindings_for, bindings_of, resolve_abi, AbiKind, Bindings, ImportDecl, ImportModel,
};
use crate::error::{ErrorModel, PipelineError};
use crate::format::{accept_translation, inspect, is_binary, translated, Inspection, Translation};
use crate::report::{timing_line, timing_text, Phase};

verus! {

/// Where a run stands: which collaborator's answer the pipeline waits for.
#[derive(Clone, Copy, Debug, PartialEq, Eq, Structural)]
pub enum Stage {
    /// The input file is being read.
    Loading,
    /// The translator is turning the textual form into a binary module.
    Translating,
    /// The compiler is building the module.
    Compiling,
    /// The environment of the enhanced ABI is being built.
    BuildingEnvironment { compile_nanos: u64 },
    /// The module is being bound to its imports.
    Instantiating { abi: AbiKind, compile_nanos: u64 },
    /// The guest is running.
    Running { abi: AbiKind },
    /// The run is over.
    Finished,
}

/// What a collaborator answered. A `nanos` field is the wall-clock time that
/// the call took, in nanoseconds, however it ended; an `Err` holds the text
/// by which the collaborator described its failure.
#[derive(Debug, PartialEq, Eq)]
pub enum Event {
    /// The loader read the whole file, or could not.
    Read(Result<Vec<u8>, String>),
    /// The translator returned.
    Translated(Result<Vec<u8>, String>),
    /// The compiler returned; on success, with the functions that the module
    /// imports.
    Compiled { nanos: u64, imports: Result<Vec<ImportDecl>, String> },
    /// The environment generator returned.
    EnvironmentBuilt(Result<(), String>),
    /// The instantiator returned.
    Instantiated(Result<(), String>),
    /// The guest's entry point returned, or the guest trapped.
    Ran { nanos: u64, exit: Result<(), String> },
}

/// What the pipeline asks of its driver next.
#[derive(Debug, PartialEq, Eq)]
pub enum Action {
    /// Read the file at `path` into memory.
    Read { path: String },
    /// Hand `text` to the translator.
    Translate { text: Vec<u8> },
    /// Hand `binary` to the compiler, and time the call.
    Compile { binary: Vec<u8> },
    /// Build the environment of the enhanced ABI for the compiled module.
    BuildEnvironment,
    /// Instantiate the compiled module with `bindings`.
    Instantiate { bindings: Bindings },
    /// Call the entry point by the convention of `abi`, with the program's
    /// display name and its arguments, and time the call.
    Run { abi: AbiKind, name: String, args: Vec<String> },
    /// Report `result` and end the run.
    Finish { result: Result<(), PipelineError> },
}

/// The pipeline's answer to an event: a line for the informational channel,
/// if one is due, and what to do next.
#[derive(Debug, PartialEq, Eq)]
pub struct Step {
    pub line: Option<String>,
    pub action: Action,
}

/// The state of one run. It is made by [`Pipeline::start`] and moved on by
/// [`Pipeline::step`] alone.
#[derive(Debug, PartialEq, Eq)]
pub struct Pipeline {
    stage: Stage,
    path: String,
    args: Vec<String>,
}

/// What an [`Event`] holds, as mathematical values.
pub enum EventModel {
    Read(Result<Seq<u8>, Seq<char>>),
    Translated(Translation),
    Compiled { nanos: u64, imports: Result<Seq<ImportModel>, Seq<char>> },
    EnvironmentBuilt(Result<(), Seq<char>>),
    Instantiated(Result<(), Seq<char>>),
    Ran { nanos: u64, exit: Result<(), Seq<char>> },
}

/// What an [`Action`] holds, as mathematical values.
pub enum ActionModel {
    Read { path: Seq<char> },
    Translate { text: Seq<u8> },
    Compile { binary: Seq<u8> },
    BuildEnvironment,
    Instantiate { bindings: Bindings },
    Run { abi: AbiKind, name: Seq<char>, args: Seq<Seq<char>> },
    Finish { result: Result<(), ErrorModel> },
}

/// What a [`Step`] holds, as mathematical values.
pub struct StepModel {
    pub line: Option<Seq<char>>,
    pub action: ActionModel,
}

/// What a [`Pipeline`] holds, as mathematical values.
pub struct PipelineModel {
    pub stage: Stage,
    pub path: Seq<char>,
    pub args: Seq<Seq<char>>,
}

/// A result of bytes with both sides taken as mathematical values.
pub open spec fn bytes_model(outcome: Result<Vec<u8>, String>) -> Result<Seq<u8>, Seq<char>> {
    match outcome {
        Ok(bytes) => Ok(bytes@),
        Err(cause) => Err(cause@),
    }
}

/// A result without a value with its error taken as a mathematical value.
pub open spec fn unit_model(outcome: Result<(), String>) -> Result<(), Seq<char>> {
    match outcome {
        Ok(_) => Ok(()),
        Err(cause) => Err(cause@),
    }
}

/// A result of an import table with both sides taken as mathematical values.
pub open spec fn imports_model(outcome: Result<Vec<ImportDecl>, String>) -> Result<
    Seq<ImportModel>,
    Seq<char>,
> {
    match outcome {
        Ok(imports) => Ok(imports.deep_view()),
        Err(cause) => Err(cause@),
    }
}

impl View for Event {
    type V = EventModel;

    open spec fn view(&self) -> EventModel {
        match *self {
            Event::Read(outcome) => EventModel::Read(bytes_model(outcome)),
            Event::Translated(outcome) => EventModel::Translated(bytes_model(outcome)),
            Event::Compiled { nanos, imports } => EventModel::Compiled {
                nanos,
                imports: imports_model(imports),
            },
            Event::EnvironmentBuilt(outcome) => EventModel::EnvironmentBuilt(unit_model(outcome)),
            Event::Instantiated(outcome) => EventModel::Instantiated(unit_model(outcome)),
            Event::Ran { nanos, exit } => EventModel::Ran { nanos, exit: unit_model(exit) },
        }
    }
}

impl View for Action {
    type V = ActionModel;

    open spec fn view(&self) -> ActionModel {
        match *self {
            Action::Read { path } => ActionModel::Read { path: path@ },
            Action::Translate { text } => ActionModel::Translate { text: text@ },
            Action::Compile { binary } => ActionModel::Compile { binary: binary@ },
            Action::BuildEnvironment => ActionModel::BuildEnvironment,
            Action::Instantiate { bindings } => ActionModel::Instantiate { bindings },
            Action::Run { abi, name, args } => ActionModel::Run {
                abi,
                name: name@,
                args: args.deep_view(),
            },
            Action::Finish { result } => ActionModel::Finish {
                result: crate::report::result_model(result),
            },
        }
    }
}

impl View for Step {
    type V = StepModel;

    open spec fn view(&self) -> StepModel {
        StepModel {
            line: match self.line {
                Some(line) => Some(line@),
                None => None,
            },
            action: self.action@,
        }
    }
}

impl View for Pipeline {
    type V = PipelineModel;

    closed spec fn view(&self) -> PipelineModel {
        PipelineModel { stage: self.stage, path: self.path@, args: self.args.deep_view() }
    }
}

impl PipelineModel {
    /// The run of `path` with `args`, before anything was read.
    pub open spec fn initial(path: Seq<char>, args: Seq<Seq<char>>) -> PipelineModel {
        PipelineModel { stage: Stage::Loading, path, args }
    }

    /// This run, moved to `stage`.
    pub open spec fn at(self, stage: Stage) -> PipelineModel {
        PipelineModel { stage, path: self.path, args: self.args }
    }
}

/// A step that asks for `action` and has nothing to say.
pub open spec fn quiet(action: ActionModel) -> StepModel {
    StepModel { line: None, action }
}

/// The step that ends the run with `error`: the run is finished, nothing is
/// said on the informational channel.
pub open spec fn fail(error: ErrorModel) -> (Stage, StepModel) {
    (Stage::Finished, quiet(ActionModel::Finish { result: Err(error) }))
}

/// The step that follows a binary module, or the failure to get one.
pub open spec fn compile_or_fail(module: Result<Seq<u8>, ErrorModel>) -> (Stage, StepModel) {
    match module {
        Ok(binary) => (Stage::Compiling, quiet(ActionModel::Compile { binary })),
        Err(error) => fail(error),
    }
}

/// The pipeline's transition function. For a run in state `run` and an
/// answer `event`, it gives the next stage and the step to take, or `None`
/// where `event` is not the answer that the stage waits for.
pub open spec fn react(run: PipelineModel, event: EventModel) -> Option<(Stage, StepModel)> {
    match (run.stage, event) {
        (Stage::Loading, EventModel::Read(Ok(raw))) => Some(
            if is_binary(raw) {
                compile_or_fail(Ok(raw))
            } else {
                (Stage::Translating, quiet(ActionModel::Translate { text: raw }))
            },
        ),
        (Stage::Loading, EventModel::Read(Err(cause))) => Some(
            fail(ErrorModel::Io { path: run.path, cause }),
        ),
        (Stage::Translating, EventModel::Translated(translation)) => Some(
            compile_or_fail(translated(translation)),
        ),
        (Stage::Compiling, EventModel::Compiled { nanos, imports: Ok(imports) }) => Some(
            match abi_of(imports) {
                AbiKind::Enhanced => (
                    Stage::BuildingEnvironment { compile_nanos: nanos },
                    quiet(ActionModel::BuildEnvironment),
                ),
                AbiKind::Baseline => (
                    Stage::Instantiating { abi: AbiKind::Baseline, compile_nanos: nanos },
                    quiet(ActionModel::Instantiate { bindings: bindings_of(AbiKind::Baseline) }),
                ),
            },
        ),
        (Stage::Compiling, EventModel::Compiled { nanos, imports: Err(cause) }) => Some(
            fail(ErrorModel::Compile(cause)),
        ),
        (Stage::BuildingEnvironment { compile_nanos }, EventModel::EnvironmentBuilt(Ok(_))) => Some(
            (
                Stage::Instantiating { abi: AbiKind::Enhanced, compile_nanos },
                quiet(ActionModel::Instantiate { bindings: bindings_of(AbiKind::Enhanced) }),
            ),
        ),
        (Stage::BuildingEnvironment { .. }, EventModel::EnvironmentBuilt(Err(cause))) => Some(
            fail(ErrorModel::AbiInit(cause)),
        ),
        (Stage::Instantiating { abi, compile_nanos }, EventModel::Instantiated(Ok(_))) => Some(
            (
                Stage::Running { abi },
                StepModel {
                    line: Some(timing_text(Phase::Compile, compile_nanos)),
                    action: ActionModel::Run { abi, name: run.path, args: run.args },
                },
            ),
        ),
        (Stage::Instantiating { .. }, EventModel::Instantiated(Err(cause))) => Some(
            fail(ErrorModel::Instantiation(cause)),
        ),
        (Stage::Running { .. }, EventModel::Ran { nanos, exit: Ok(_) }) => Some(
            (
                Stage::Finished,
                StepModel {
                    line: Some(timing_text(Phase::Run, nanos)),
                    action: ActionModel::Finish { result: Ok(()) },
                },
            ),
        ),
        (Stage::Running { .. }, EventModel::Ran { nanos, exit: Err(cause) }) => Some(
            fail(ErrorModel::Execution(cause)),
        ),
        _ => None,
    }
}

/// Copies a list of strings.
fn copy_strings(items: &Vec<String>) -> (copy: Vec<String>)
    ensures
        copy.deep_view() == items.deep_view(),
{
    let mut copy: Vec<String> = Vec::new();
    let mut at: usize = 0;
    while at < items.len()
        invariant
            at <= items.len(),
            copy.len() == at,
            forall|i: int| 0 <= i < at ==> copy[i]@ == items[i]@,
        decreases items.len() - at,
    {
        copy.push(items[at].clone());
        at += 1;
    }
    assert(copy.deep_view() =~= items.deep_view());
    copy
}

/// The step that asks for `action` and says nothing.
fn quietly(action: Action) -> (step: Step)
    ensures
        step@ == quiet(action@),
{
    Step { line: None, action }
}

impl Pipeline {
    /// Begins the run of the program at `path` with the arguments `args`. The
    /// first thing to do is to read the file.
    pub fn start(path: String, args: Vec<String>) -> (begun: (Pipeline, Action))
        ensures
            begun.0@ == PipelineModel::initial(path@, args.deep_view()),
            begun.1@ == (ActionModel::Read { path: path@ }),
    {
        let action = Action::Read { path: path.clone() };
        (Pipeline { stage: Stage::Loading, path, args }, action)
    }

    /// Where the run stands.
    pub fn stage(&self) -> (stage: Stage)
        ensures
            stage == self@.stage,
    {
        self.stage
    }

    /// Ends the run with `error`.
    fn fail(&mut self, error: PipelineError) -> (step: Step)
        ensures
            (final(self)@.stage, step@) == fail(error@),
            final(self)@ == old(self)@.at(Stage::Finished),
    {
        self.stage = Stage::Finished;
        quietly(Action::Finish { result: Err(error) })
    }

    /// Goes on to the compiler with `module`, or ends the run with the
    /// error that stands in its place.
    fn compile_or_fail(&mut self, module: Result<Vec<u8>, PipelineError>) -> (step: Step)
        ensures
            module matches Ok(binary) ==> (final(self)@.stage, step@) == compile_or_fail(
                Ok(binary@),
            ),
            module matches Err(error) ==> (final(self)@.stage, step@) == compile_or_fail(
                Err(error@),
            ),
            final(self)@ == old(self)@.at(final(self)@.stage),
    {
        match module {
            Ok(binary) => {
                self.stage = Stage::Compiling;
                quietly(Action::Compile { binary })
            },
            Err(error) => self.fail(error),
        }
    }

    /// Takes the answer `event` of the collaborator that was asked last and
    /// says what to do next. An answer that the stage does not wait for is
    /// refused with `None` and leaves the run as it was.
    pub fn step(&mut self, event: Event) -> (step: Option<Step>)
        ensures
            match react(old(self)@, event@) {
                Some((stage, reaction)) => {
                    &&& final(self)@ == old(self)@.at(stage)
                    &&& step matches Some(taken) && taken@ == reaction
                },
                None => final(self)@ == old(self)@ && step is None,
            },
    {
        let stage = self.stage;
        match event {
            Event::Read(outcome) => match stage {
                Stage::Loading => match outcome {
                    Ok(raw) => match inspect(raw) {
                        Inspection::Binary(binary) => Some(self.compile_or_fail(Ok(binary))),
                        Inspection::Text(text) => {
                            self.stage = Stage::Translating;
                            Some(quietly(Action::Translate { text }))
                        },
                    },
                    Err(cause) => {
                        let path = self.path.clone();
                        Some(self.fail(PipelineError::Io { path, cause }))
                    },
                },
                _ => None,
            },
            Event::Translated(outcome) => match stage {
                Stage::Translating => Some(self.compile_or_fail(accept_translation(outcome))),
                _ => None,
            },
            Event::Compiled { nanos, imports } => match stage {
                Stage::Compiling => match imports {
                    Ok(imports) => match resolve_abi(&imports) {
                        AbiKind::Enhanced => {
                            self.stage = Stage::BuildingEnvironment { compile_nanos: nanos };
                            Some(quietly(Action::BuildEnvironment))
                        },
                        AbiKind::Baseline => {
                            self.stage = Stage::Instantiating {
                                abi: AbiKind::Baseline,
                                compile_nanos: nanos,
                            };
                            Some(
                                quietly(
                                    Action::Instantiate { bindings: bindings_for(AbiKind::Baseline) },
                                ),
                            )
                        },
                    },
                    Err(cause) => Some(self.fail(PipelineError::Compile(cause))),
                },
                _ => None,
            },
            Event::EnvironmentBuilt(outcome) => match stage {
                Stage::BuildingEnvironment { compile_nanos } => match outcome {
                    Ok(_) => {
                        self.stage = Stage::Instantiating { abi: AbiKind::Enhanced, compile_nanos };
                        Some(
                            quietly(
                                Action::Instantiate { bindings: bindings_for(AbiKind::Enhanced) },
                            ),
                        )
                    },
                    Err(cause) => Some(self.fail(PipelineError::AbiInit(cause))),
                },
                _ => None,
            },
            Event::Instantiated(outcome) => match stage {
                Stage::Instantiating { abi, compile_nanos } => match outcome {
                    Ok(_) => {
                        self.stage = Stage::Running { abi };
                        let line = timing_line(Phase::Compile, compile_nanos);
                        let name = self.path.clone();
                        let args = copy_strings(&self.args);
                        Some(Step { line: Some(line), action: Action::Run { abi, name, args } })
                    },
                    Err(cause) => Some(self.fail(PipelineError::Instantiation(cause))),
                },
                _ => None,
            },
            Event::Ran { nanos, exit } => match stage {
                Stage::Running { .. } => match exit {
                    Ok(_) => {
                        self.stage = Stage::Finished;
                        let line = timing_line(Phase::Run, nanos);
                        Some(Step { line: Some(line), action: Action::Finish { result: Ok(()) } })
                    },
                    Err(cause) => Some(self.fail(PipelineError::Execution(cause))),
                },
                _ => None,
            },
        }
    }
}

} // verus!
