use wasm_lang::lang::WASMLang;
use wasm_lang::registry::{Grammar, LoadOutcome, Registry, UnrecoverableState};

fn load_ok(reg: &mut Registry, tag: &str, location: &str) {
    let plan = reg
        .set_current(tag, location)
        .unwrap_or_else(|e| panic!("{}", e.message()));
    assert_eq!(plan.location, location);
    reg.finish_load(LoadOutcome::Loaded(Grammar::new(&plan.location)))
        .unwrap_or_else(|e| panic!("load failed: {}", e.reason()));
}

#[test]
fn fresh_registry_has_default_tag_and_no_grammar() {
    let reg = Registry::new();
    assert_eq!(reg.get_current(), WASMLang::JavaScript);
    assert_eq!(reg.get_active_grammar().unwrap_err(), UnrecoverableState);
}

#[test]
fn successful_set_current_publishes_tag_and_grammar() {
    let mut reg = Registry::new();
    load_ok(&mut reg, "python", "python.wasm");
    assert_eq!(reg.get_current(), WASMLang::Python);
    let g = reg.get_active_grammar().expect("a grammar was loaded");
    assert_eq!(g.location(), "python.wasm");
}

#[test]
fn failed_load_keeps_previous_grammar_but_new_tag() {
    let mut reg = Registry::new();
    load_ok(&mut reg, "python", "python.wasm");

    let plan = reg.set_current("rust", "rust.wasm").expect("rust is recognized");
    assert!(!plan.need_init);
    let err = reg
        .finish_load(LoadOutcome::FetchFailed(String::from("artifact missing")))
        .unwrap_err();
    assert_eq!(err.reason(), "artifact missing");

    assert_eq!(reg.get_current(), WASMLang::Rust);
    let g = reg.get_active_grammar().expect("previous grammar stays published");
    assert_eq!(g.location(), "python.wasm");
}

#[test]
fn failed_load_with_no_prior_grammar_leaves_adapter_unrecoverable() {
    let mut reg = Registry::new();
    let plan = reg.set_current("go", "go.wasm").expect("go is recognized");
    assert!(plan.need_init);
    let err = reg
        .finish_load(LoadOutcome::FetchFailed(String::from("404")))
        .unwrap_err();
    assert_eq!(err.reason(), "404");
    assert_eq!(reg.get_current(), WASMLang::Go);
    assert_eq!(reg.get_active_grammar().unwrap_err(), UnrecoverableState);
}

#[test]
fn runtime_initialization_happens_once() {
    let mut reg = Registry::new();
    let plan1 = reg.set_current("python", "python.wasm").unwrap();
    assert!(plan1.need_init);
    reg.finish_load(LoadOutcome::Loaded(Grammar::new("python.wasm"))).unwrap();

    let plan2 = reg.set_current("yaml", "yaml.wasm").unwrap();
    assert!(!plan2.need_init);
    reg.finish_load(LoadOutcome::Loaded(Grammar::new("yaml.wasm"))).unwrap();

    assert_eq!(reg.get_current(), WASMLang::Yaml);
    assert_eq!(reg.get_active_grammar().unwrap().location(), "yaml.wasm");
}

#[test]
fn fetch_failure_still_marks_runtime_initialized() {
    let mut reg = Registry::new();
    let plan1 = reg.set_current("toml", "toml.wasm").unwrap();
    assert!(plan1.need_init);
    reg.finish_load(LoadOutcome::FetchFailed(String::from("bad artifact")))
        .unwrap_err();

    let plan2 = reg.set_current("toml", "toml.wasm").unwrap();
    assert!(!plan2.need_init);
}

#[test]
fn init_failure_leaves_runtime_uninitialized() {
    let mut reg = Registry::new();
    let plan1 = reg.set_current("ruby", "ruby.wasm").unwrap();
    assert!(plan1.need_init);
    let err = reg
        .finish_load(LoadOutcome::InitFailed(String::from("runtime unavailable")))
        .unwrap_err();
    assert_eq!(err.reason(), "runtime unavailable");

    let plan2 = reg.set_current("ruby", "ruby.wasm").unwrap();
    assert!(plan2.need_init);
    assert_eq!(reg.get_active_grammar().unwrap_err(), UnrecoverableState);
}

#[test]
fn unsupported_tag_leaves_registry_untouched() {
    let mut reg = Registry::new();
    load_ok(&mut reg, "python", "python.wasm");

    let err = reg.set_current("bogus", "x").unwrap_err();
    assert_eq!(err.tag(), "bogus");
    assert_eq!(err.message(), "Language bogus is not supported.");

    assert_eq!(reg.get_current(), WASMLang::Python);
    assert_eq!(reg.get_active_grammar().unwrap().location(), "python.wasm");
}

#[test]
fn grammar_handle_clones_share_the_location() {
    let g = Grammar::new("c.wasm");
    let g2 = g.clone();
    assert_eq!(g.location(), "c.wasm");
    assert_eq!(g2.location(), "c.wasm");
}
