use wasm_runner::abi::{bindings_for, resolve_abi, AbiKind, Bindings, ImportDecl};

fn import(namespace: &str, name: &str) -> ImportDecl {
    ImportDecl { namespace: String::from(namespace), name: String::from(name) }
}

#[test]
fn empty_import_table_is_baseline() {
    assert_eq!(resolve_abi(&Vec::new()), AbiKind::Baseline);
}

#[test]
fn marker_import_makes_the_module_enhanced() {
    let imports = vec![import("env", "_emscripten_memcpy_big")];
    assert_eq!(resolve_abi(&imports), AbiKind::Enhanced);
}

#[test]
fn marker_is_found_anywhere_in_the_table() {
    let imports = vec![
        import("env", "abort"),
        import("global", "NaN"),
        import("env", "_emscripten_memcpy_big"),
        import("env", "_puts"),
    ];
    assert_eq!(resolve_abi(&imports), AbiKind::Enhanced);
}

#[test]
fn other_imports_leave_the_module_baseline() {
    let imports = vec![
        import("env", "abort"),
        import("host", "_emscripten_memcpy_big"),
        import("env", "_emscripten_memcpy"),
        import("env", "_emscripten_memcpy_big2"),
        import("_emscripten_memcpy_big", "env"),
        import("", ""),
    ];
    assert_eq!(resolve_abi(&imports), AbiKind::Baseline);
}

#[test]
fn resolving_twice_gives_the_same_answer() {
    let enhanced = vec![import("env", "_emscripten_memcpy_big")];
    let baseline = vec![import("env", "abort")];
    assert_eq!(resolve_abi(&enhanced), resolve_abi(&enhanced));
    assert_eq!(resolve_abi(&baseline), resolve_abi(&baseline));
    assert_eq!(enhanced, vec![import("env", "_emscripten_memcpy_big")]);
}

#[test]
fn single_entries_are_compared_with_the_marker() {
    assert!(import("env", "_emscripten_memcpy_big").is_marker());
    assert!(!import("env", "_emscripten_memcpy_bi").is_marker());
    assert!(!import("Env", "_emscripten_memcpy_big").is_marker());
}

#[test]
fn bindings_go_with_the_abi() {
    assert_eq!(bindings_for(AbiKind::Baseline), Bindings::Empty);
    assert_eq!(bindings_for(AbiKind::Enhanced), Bindings::Environment);
}
