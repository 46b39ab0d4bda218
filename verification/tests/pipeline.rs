use wasm_runner::abi::{AbiKind, Bindings, ImportDecl};
use wasm_runner::error::PipelineError;
use wasm_runner::pipeline::{Action, Event, Pipeline, Stage, Step};
use wasm_runner::report::conclude;

fn text(s: &str) -> String {
    String::from(s)
}

fn binary_module() -> Vec<u8> {
    vec![0x00, 0x61, 0x73, 0x6d, 0x01, 0x00, 0x00, 0x00]
}

fn import(namespace: &str, name: &str) -> ImportDecl {
    ImportDecl { namespace: text(namespace), name: text(name) }
}

fn quiet(action: Action) -> Option<Step> {
    Some(Step { line: None, action })
}

fn failed(error: PipelineError) -> Option<Step> {
    quiet(Action::Finish { result: Err(error) })
}

fn compiled(imports: Vec<ImportDecl>) -> Event {
    Event::Compiled { nanos: 1_500_000, imports: Ok(imports) }
}

#[test]
fn run_begins_by_reading_the_file() {
    let (run, action) = Pipeline::start(text("prog.wasm"), vec![text("x")]);
    assert_eq!(action, Action::Read { path: text("prog.wasm") });
    assert_eq!(run.stage(), Stage::Loading);
}

#[test]
fn binary_module_without_imports_runs_to_success() {
    let (mut run, _) = Pipeline::start(text("prog.wasm"), Vec::new());

    let step = run.step(Event::Read(Ok(binary_module())));
    assert_eq!(step, quiet(Action::Compile { binary: binary_module() }));
    assert_eq!(run.stage(), Stage::Compiling);

    let step = run.step(compiled(Vec::new()));
    assert_eq!(step, quiet(Action::Instantiate { bindings: Bindings::Empty }));
    assert_eq!(
        run.stage(),
        Stage::Instantiating { abi: AbiKind::Baseline, compile_nanos: 1_500_000 }
    );

    let step = run.step(Event::Instantiated(Ok(())));
    assert_eq!(
        step,
        Some(Step {
            line: Some(text("compile time: 1.5ms")),
            action: Action::Run {
                abi: AbiKind::Baseline,
                name: text("prog.wasm"),
                args: Vec::new(),
            },
        })
    );
    assert_eq!(run.stage(), Stage::Running { abi: AbiKind::Baseline });

    let step = run.step(Event::Ran { nanos: 2_000_000_000, exit: Ok(()) });
    assert_eq!(
        step,
        Some(Step { line: Some(text("run time: 2s")), action: Action::Finish { result: Ok(()) } })
    );
    assert_eq!(run.stage(), Stage::Finished);

    let outcome = conclude(Ok(()));
    assert_eq!(outcome.exit_status(), 0);
    assert!(outcome.diagnostics().is_empty());
}

#[test]
fn nonexistent_path_is_an_io_error() {
    let (mut run, _) = Pipeline::start(text("no/such/file.wasm"), Vec::new());
    let step = run.step(Event::Read(Err(text("No such file or directory (os error 2)"))));
    let error = PipelineError::Io {
        path: text("no/such/file.wasm"),
        cause: text("No such file or directory (os error 2)"),
    };
    assert_eq!(step, failed(error.clone()));
    assert_eq!(run.stage(), Stage::Finished);

    let outcome = conclude(Err(error));
    assert_eq!(outcome.exit_status(), 1);
    let lines = outcome.diagnostics();
    assert_eq!(lines.len(), 1);
    assert!(lines[0].contains("no/such/file.wasm"));
    assert_eq!(
        lines[0],
        "\"Can't read the file no/such/file.wasm: No such file or directory (os error 2)\""
    );
}

#[test]
fn invalid_text_never_reaches_the_compiler() {
    let (mut run, _) = Pipeline::start(text("bad.wat"), Vec::new());
    let source = b"(module (func".to_vec();

    let step = run.step(Event::Read(Ok(source.clone())));
    assert_eq!(step, quiet(Action::Translate { text: source }));
    assert_eq!(run.stage(), Stage::Translating);

    let step = run.step(Event::Translated(Err(text("Parse(\"unexpected end\")"))));
    assert_eq!(step, failed(PipelineError::FormatConversion(text("Parse(\"unexpected end\")"))));
    assert_eq!(run.stage(), Stage::Finished);

    assert_eq!(run.step(compiled(Vec::new())), None);
    let outcome = conclude(Err(PipelineError::FormatConversion(text("Parse(\"unexpected end\")"))));
    assert_eq!(outcome.exit_status(), 1);
}

#[test]
fn translated_text_goes_to_the_compiler() {
    let (mut run, _) = Pipeline::start(text("good.wat"), Vec::new());
    run.step(Event::Read(Ok(b"(module)".to_vec())));
    let step = run.step(Event::Translated(Ok(binary_module())));
    assert_eq!(step, quiet(Action::Compile { binary: binary_module() }));
    assert_eq!(run.stage(), Stage::Compiling);
}

#[test]
fn enhanced_module_gets_its_environment_and_its_arguments() {
    let (mut run, _) = Pipeline::start(text("em.wasm"), vec![text("a"), text("b")]);
    run.step(Event::Read(Ok(binary_module())));

    let imports = vec![import("env", "abort"), import("env", "_emscripten_memcpy_big")];
    let step = run.step(Event::Compiled { nanos: 7, imports: Ok(imports) });
    assert_eq!(step, quiet(Action::BuildEnvironment));
    assert_eq!(run.stage(), Stage::BuildingEnvironment { compile_nanos: 7 });

    let step = run.step(Event::EnvironmentBuilt(Ok(())));
    assert_eq!(step, quiet(Action::Instantiate { bindings: Bindings::Environment }));
    assert_eq!(run.stage(), Stage::Instantiating { abi: AbiKind::Enhanced, compile_nanos: 7 });

    let step = run.step(Event::Instantiated(Ok(())));
    assert_eq!(
        step,
        Some(Step {
            line: Some(text("compile time: 7ns")),
            action: Action::Run {
                abi: AbiKind::Enhanced,
                name: text("em.wasm"),
                args: vec![text("a"), text("b")],
            },
        })
    );
}

#[test]
fn compile_failure_ends_the_run() {
    let (mut run, _) = Pipeline::start(text("prog.wasm"), Vec::new());
    run.step(Event::Read(Ok(binary_module())));
    let step = run.step(Event::Compiled { nanos: 9, imports: Err(text("bad section")) });
    assert_eq!(step, failed(PipelineError::Compile(text("bad section"))));
    assert_eq!(run.stage(), Stage::Finished);
}

#[test]
fn environment_failure_ends_the_run() {
    let (mut run, _) = Pipeline::start(text("em.wasm"), Vec::new());
    run.step(Event::Read(Ok(binary_module())));
    run.step(compiled(vec![import("env", "_emscripten_memcpy_big")]));
    let step = run.step(Event::EnvironmentBuilt(Err(text("no memory"))));
    assert_eq!(step, failed(PipelineError::AbiInit(text("no memory"))));
    assert_eq!(run.stage(), Stage::Finished);
    assert_eq!(run.step(Event::Instantiated(Ok(()))), None);
}

#[test]
fn unresolved_import_never_reaches_the_entry_point() {
    let (mut run, _) = Pipeline::start(text("prog.wasm"), Vec::new());
    run.step(Event::Read(Ok(binary_module())));
    run.step(compiled(vec![import("env", "abort")]));
    let step = run.step(Event::Instantiated(Err(text("unresolved import env.abort"))));
    let error = PipelineError::Instantiation(text("unresolved import env.abort"));
    assert_eq!(step, failed(error.clone()));
    assert_eq!(run.stage(), Stage::Finished);
    assert_eq!(run.step(Event::Ran { nanos: 1, exit: Ok(()) }), None);
    assert_eq!(conclude(Err(error)).exit_status(), 1);
}

#[test]
fn trap_reports_no_run_time() {
    let (mut run, _) = Pipeline::start(text("prog.wasm"), Vec::new());
    run.step(Event::Read(Ok(binary_module())));
    run.step(compiled(Vec::new()));
    let step = run.step(Event::Instantiated(Ok(())));
    assert_eq!(step.unwrap().line, Some(text("compile time: 1.5ms")));
    let step = run.step(Event::Ran { nanos: 3_000_000_000, exit: Err(text("unreachable")) });
    assert_eq!(step, failed(PipelineError::Execution(text("unreachable"))));
    assert_eq!(run.stage(), Stage::Finished);
}

#[test]
fn answer_out_of_turn_is_refused() {
    let (mut run, _) = Pipeline::start(text("prog.wasm"), Vec::new());
    assert_eq!(run.step(Event::Translated(Ok(binary_module()))), None);
    assert_eq!(run.step(compiled(Vec::new())), None);
    assert_eq!(run.step(Event::EnvironmentBuilt(Ok(()))), None);
    assert_eq!(run.step(Event::Instantiated(Ok(()))), None);
    assert_eq!(run.step(Event::Ran { nanos: 0, exit: Ok(()) }), None);
    assert_eq!(run.stage(), Stage::Loading);

    run.step(Event::Read(Ok(binary_module())));
    assert_eq!(run.step(Event::Read(Ok(binary_module()))), None);
    assert_eq!(run.step(Event::Translated(Ok(binary_module()))), None);
    assert_eq!(run.stage(), Stage::Compiling);
}

#[test]
fn finished_run_answers_nothing() {
    let (mut run, _) = Pipeline::start(text("prog.wasm"), Vec::new());
    run.step(Event::Read(Err(text("gone"))));
    assert_eq!(run.stage(), Stage::Finished);
    assert_eq!(run.step(Event::Read(Ok(binary_module()))), None);
    assert_eq!(run.step(Event::Ran { nanos: 0, exit: Ok(()) }), None);
    assert_eq!(run.stage(), Stage::Finished);
}

#[test]
fn baseline_module_skips_the_environment() {
    let (mut run, _) = Pipeline::start(text("prog.wasm"), Vec::new());
    run.step(Event::Read(Ok(binary_module())));
    run.step(compiled(vec![import("env", "abort")]));
    assert_eq!(run.step(Event::EnvironmentBuilt(Ok(()))), None);
    assert_eq!(
        run.stage(),
        Stage::Instantiating { abi: AbiKind::Baseline, compile_nanos: 1_500_000 }
    );
}
