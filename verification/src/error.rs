use vstd::prelude::*;
use vstd::string::StringExecFns;

verus! {

/// The stage of the pipeline at which a run failed.
#[derive(Clone, Copy, Debug, PartialEq, Eq, Structural)]
pub enum FailedStage {
    /// Reading the input file.
    Load,
    /// Translating the textual form into the binary encoding.
    Normalize,
    /// Building the module from its binary encoding.
    Compile,
    /// Building the host environment of the enhanced ABI.
    AbiInit,
    /// Binding the module to its imports.
    Instantiate,
    /// Running the entry point.
    Execute,
}

/// The first failure of a run. Every variant carries the text by which the
/// collaborator that failed described the cause.
#[derive(Clone, Debug, PartialEq, Eq)]
pub enum PipelineError {
    /// The input file could not be read.
    Io { path: String, cause: String },
    /// The translator rejected the textual form.
    FormatConversion(String),
    /// The compiler rejected the binary module.
    Compile(String),
    /// The environment of the enhanced ABI could not be built.
    AbiInit(String),
    /// An import stayed unresolved, or a declared resource could not be allocated.
    Instantiation(String),
    /// The guest trapped or ended abnormally.
    Execution(String),
}

/// What a [`PipelineError`] holds, as mathematical values.
pub enum ErrorModel {
    Io { path: Seq<char>, cause: Seq<char> },
    FormatConversion(Seq<char>),
    Compile(Seq<char>),
    AbiInit(Seq<char>),
    Instantiation(Seq<char>),
    Execution(Seq<char>),
}

impl View for PipelineError {
    type V = ErrorModel;

    open spec fn view(&self) -> ErrorModel {
        match self {
            PipelineError::Io { path, cause } => ErrorModel::Io { path: path@, cause: cause@ },
            PipelineError::FormatConversion(cause) => ErrorModel::FormatConversion(cause@),
            PipelineError::Compile(cause) => ErrorModel::Compile(cause@),
            PipelineError::AbiInit(cause) => ErrorModel::AbiInit(cause@),
            PipelineError::Instantiation(cause) => ErrorModel::Instantiation(cause@),
            PipelineError::Execution(cause) => ErrorModel::Execution(cause@),
        }
    }
}

impl ErrorModel {
    /// The stage at which this error arises.
    pub open spec fn stage(self) -> FailedStage {
        match self {
            ErrorModel::Io { .. } => FailedStage::Load,
            ErrorModel::FormatConversion(_) => FailedStage::Normalize,
            ErrorModel::Compile(_) => FailedStage::Compile,
            ErrorModel::AbiInit(_) => FailedStage::AbiInit,
            ErrorModel::Instantiation(_) => FailedStage::Instantiate,
            ErrorModel::Execution(_) => FailedStage::Execute,
        }
    }

    /// The text that follows the stage's opening words in the diagnostic.
    pub open spec fn detail(self) -> Seq<char> {
        match self {
            ErrorModel::Io { path, cause } => path + ": "@ + cause,
            ErrorModel::FormatConversion(cause) => cause,
            ErrorModel::Compile(cause) => cause,
            ErrorModel::AbiInit(cause) => cause,
            ErrorModel::Instantiation(cause) => cause,
            ErrorModel::Execution(cause) => cause,
        }
    }

    /// The diagnostic message: the opening words of the stage, then the detail.
    pub open spec fn diagnostic(self) -> Seq<char> {
        opening(self.stage()) + self.detail()
    }
}

/// The words with which the diagnostic of a failure at `stage` opens.
pub open spec fn opening(stage: FailedStage) -> Seq<char> {
    match stage {
        FailedStage::Load => "Can't read the file "@,
        FailedStage::Normalize => "Can't convert from wast to wasm: "@,
        FailedStage::Compile => "Can't compile module: "@,
        FailedStage::AbiInit => "Can't initialize the environment: "@,
        FailedStage::Instantiate => "Can't instantiate module: "@,
        FailedStage::Execute => "Can't run module: "@,
    }
}

impl PipelineError {
    /// The stage at which this error arose.
    pub fn stage(&self) -> (stage: FailedStage)
        ensures
            stage == self@.stage(),
    {
        match self {
            PipelineError::Io { .. } => FailedStage::Load,
            PipelineError::FormatConversion(_) => FailedStage::Normalize,
            PipelineError::Compile(_) => FailedStage::Compile,
            PipelineError::AbiInit(_) => FailedStage::AbiInit,
            PipelineError::Instantiation(_) => FailedStage::Instantiate,
            PipelineError::Execution(_) => FailedStage::Execute,
        }
    }

    /// Renders the error as the one diagnostic message of a failing run.
    pub fn diagnostic(&self) -> (message: String)
        ensures
            message@ == self@.diagnostic(),
    {
        match self {
            PipelineError::Io { path, cause } => {
                let message = String::from_str("Can't read the file ").concat(path.as_str());
                let message = message.concat(": ").concat(cause.as_str());
                assert(message@ =~= self@.diagnostic());
                message
            },
            PipelineError::FormatConversion(cause) => String::from_str(
                "Can't convert from wast to wasm: ",
            ).concat(cause.as_str()),
            PipelineError::Compile(cause) => String::from_str("Can't compile module: ").concat(
                cause.as_str(),
            ),
            PipelineError::AbiInit(cause) => String::from_str(
                "Can't initialize the environment: ",
            ).concat(cause.as_str()),
            PipelineError::Instantiation(cause) => String::from_str(
                "Can't instantiate module: ",
            ).concat(cause.as_str()),
            PipelineError::Execution(cause) => String::from_str("Can't run module: ").concat(
                cause.as_str(),
            ),
        }
    }
}

/// The characters at positions 6 and 8 of an opening, counted from 0: together they
/// tell the six openings apart.
spec fn marks(stage: FailedStage) -> (char, char) {
    match stage {
        FailedStage::Load => ('r', 'a'),
        FailedStage::Normalize => ('c', 'n'),
        FailedStage::Compile => ('c', 'm'),
        FailedStage::AbiInit => ('i', 'i'),
        FailedStage::Instantiate => ('i', 's'),
        FailedStage::Execute => ('r', 'n'),
    }
}

proof fn lemma_opening_marks(stage: FailedStage)
    ensures
        opening(stage).len() > 8,
        opening(stage)[6] == marks(stage).0,
        opening(stage)[8] == marks(stage).1,
{
    reveal_strlit("Can't read the file ");
    reveal_strlit("Can't convert from wast to wasm: ");
    reveal_strlit("Can't compile module: ");
    reveal_strlit("Can't initialize the environment: ");
    reveal_strlit("Can't instantiate module: ");
    reveal_strlit("Can't run module: ");
}

/// A diagnostic message names its stage: two errors that render to the same
/// message arose at the same stage, with the same detail.
pub proof fn diagnostic_identifies_stage(a: ErrorModel, b: ErrorModel)
    requires
        a.diagnostic() == b.diagnostic(),
    ensures
        a.stage() == b.stage(),
        a.detail() == b.detail(),
{
    lemma_opening_marks(a.stage());
    lemma_opening_marks(b.stage());
    let line = a.diagnostic();
    assert(line[6] == opening(a.stage())[6] && line[8] == opening(a.stage())[8]);
    assert(line[6] == opening(b.stage())[6] && line[8] == opening(b.stage())[8]);
    assert(a.stage() == b.stage());
    let skip = opening(a.stage()).len() as int;
    assert(a.detail() =~= a.diagnostic().subrange(skip, a.diagnostic().len() as int));
    assert(b.detail() =~= b.diagnostic().subrange(skip, b.diagnostic().len() as int));
}

} // verus!
