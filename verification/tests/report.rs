use wasm_runner::error::{FailedStage, PipelineError};
use wasm_runner::report::{conclude, label_duration, timing_line, Phase, RunOutcome};

fn text(s: &str) -> String {
    String::from(s)
}

#[test]
fn io_error_names_the_path() {
    let error = PipelineError::Io { path: text("missing.wasm"), cause: text("No such file") };
    assert_eq!(error.diagnostic(), "Can't read the file missing.wasm: No such file");
    assert_eq!(error.stage(), FailedStage::Load);
}

#[test]
fn format_conversion_error_is_rendered() {
    let error = PipelineError::FormatConversion(text("Parse(\"bad\")"));
    assert_eq!(error.diagnostic(), "Can't convert from wast to wasm: Parse(\"bad\")");
    assert_eq!(error.stage(), FailedStage::Normalize);
}

#[test]
fn compile_error_is_rendered() {
    let error = PipelineError::Compile(text("boom"));
    assert_eq!(error.diagnostic(), "Can't compile module: boom");
    assert_eq!(error.stage(), FailedStage::Compile);
}

#[test]
fn abi_init_error_is_rendered() {
    let error = PipelineError::AbiInit(text("no memory"));
    assert_eq!(error.diagnostic(), "Can't initialize the environment: no memory");
    assert_eq!(error.stage(), FailedStage::AbiInit);
}

#[test]
fn instantiation_error_is_rendered() {
    let error = PipelineError::Instantiation(text("unresolved import env.abort"));
    assert_eq!(error.diagnostic(), "Can't instantiate module: unresolved import env.abort");
    assert_eq!(error.stage(), FailedStage::Instantiate);
}

#[test]
fn execution_error_is_rendered() {
    let error = PipelineError::Execution(text("unreachable"));
    assert_eq!(error.diagnostic(), "Can't run module: unreachable");
    assert_eq!(error.stage(), FailedStage::Execute);
}

#[test]
fn empty_cause_leaves_the_opening_words() {
    assert_eq!(PipelineError::Compile(String::new()).diagnostic(), "Can't compile module: ");
}

#[test]
fn messages_of_different_stages_differ() {
    let cause = "same cause";
    let messages = vec![
        PipelineError::Io { path: text("p"), cause: text(cause) }.diagnostic(),
        PipelineError::FormatConversion(text(cause)).diagnostic(),
        PipelineError::Compile(text(cause)).diagnostic(),
        PipelineError::AbiInit(text(cause)).diagnostic(),
        PipelineError::Instantiation(text(cause)).diagnostic(),
        PipelineError::Execution(text(cause)).diagnostic(),
    ];
    for i in 0..messages.len() {
        for j in 0..messages.len() {
            assert_eq!(i == j, messages[i] == messages[j]);
        }
    }
}

#[test]
fn success_exits_with_zero_and_no_diagnostic() {
    let outcome = conclude(Ok(()));
    assert_eq!(outcome, RunOutcome::Success);
    assert_eq!(outcome.exit_status(), 0);
    assert!(outcome.diagnostics().is_empty());
}

#[test]
fn failure_exits_with_one_and_one_diagnostic() {
    let outcome = conclude(Err(PipelineError::Compile(text("boom"))));
    assert_eq!(outcome, RunOutcome::Failure(text("Can't compile module: boom")));
    assert_eq!(outcome.exit_status(), 1);
    assert_eq!(outcome.diagnostics(), vec![text("\"Can't compile module: boom\"")]);
}

#[test]
fn diagnostic_with_line_breaks_stays_on_one_line() {
    let outcome = conclude(Err(PipelineError::Execution(text("a\nb \"c\""))));
    let lines = outcome.diagnostics();
    assert_eq!(lines, vec![text("\"Can't run module: a\\nb \\\"c\\\"\"")]);
    assert!(!lines[0].contains('\n'));
}

#[test]
fn every_failure_exits_with_one() {
    let errors = vec![
        PipelineError::Io { path: text("p"), cause: text("c") },
        PipelineError::FormatConversion(text("c")),
        PipelineError::Compile(text("c")),
        PipelineError::AbiInit(text("c")),
        PipelineError::Instantiation(text("c")),
        PipelineError::Execution(text("c")),
    ];
    for error in errors {
        let outcome = conclude(Err(error));
        assert_eq!(outcome.exit_status(), 1);
        assert_eq!(outcome.diagnostics().len(), 1);
    }
}

#[test]
fn durations_are_rendered_as_std_does() {
    assert_eq!(timing_line(Phase::Compile, 1_500_000_000), "compile time: 1.5s");
    assert_eq!(timing_line(Phase::Run, 2_000_000), "run time: 2ms");
    assert_eq!(timing_line(Phase::Run, 0), "run time: 0ns");
    assert_eq!(timing_line(Phase::Compile, 1_234), "compile time: 1.234\u{b5}s");
}

#[test]
fn label_goes_before_the_duration() {
    assert_eq!(label_duration(Phase::Compile, "3s"), "compile time: 3s");
    assert_eq!(label_duration(Phase::Run, ""), "run time: ");
}
