use card_lookup::error::{ErrorKind, PipelineError};
use card_lookup::scripting::engine::{
    script_game, scripts_directory, LoadStep, RenderScript, ScriptSet,
};
use card_lookup::scripting::loader::{
    create_rune_runtime, LoadAction, LoadEvent, LoadPhase, Loader,
};

fn script(game: &str, functions: &[&str]) -> RenderScript {
    RenderScript { game: game.to_string(), functions: functions.iter().map(|f| f.to_string()).collect() }
}

fn games(names: &[&str]) -> Vec<String> {
    names.iter().map(|n| n.to_string()).collect()
}

#[test]
fn scripts_live_in_the_games_directory() {
    assert_eq!(scripts_directory(), "games");
}

#[test]
fn script_files_end_in_rn() {
    assert_eq!(script_game("netrunner.rn"), Some("netrunner".to_string()));
    assert_eq!(script_game("a.rn"), Some("a".to_string()));
    assert_eq!(script_game("star.wars.rn"), Some("star.wars".to_string()));
    assert_eq!(script_game(".hidden.rn"), Some(".hidden".to_string()));
}

#[test]
fn other_files_hold_no_script() {
    for name in ["", "rn", ".rn", "netrunner", "netrunner.rs", "netrunner.rn.bak", "netrunner.RN", "netrunnerrn", "x.r", "README.md"] {
        assert_eq!(script_game(name), None);
    }
}

#[test]
fn load_failures_name_the_step_and_the_cause() {
    let cases = vec![
        (LoadStep::CreateContext, "Failed to create context: boom"),
        (LoadStep::LoadJsonModule, "Failed to load json module: boom"),
        (LoadStep::InstallModule, "Failed to install context: boom"),
        (LoadStep::CreateRuntime, "Failed to create runtime: boom"),
        (LoadStep::ReadDirectory, "Script directory doesn't exist: boom"),
        (
            LoadStep::InsertSource("games/netrunner.rn".to_string()),
            "Failed to insert source at games/netrunner.rn: boom",
        ),
        (LoadStep::Prepare, "Failed to prepare rune: boom"),
        (LoadStep::EmitDiagnostics, "Failed to write the diagnostics: boom"),
        (LoadStep::InspectScripts(games(&["netrunner"])), "Failed to inspect the scripts: boom"),
        (LoadStep::ListGames, "Failed to list the games of the store: boom"),
    ];
    for (step, detail) in cases {
        let error = step.failed("boom");
        assert_eq!(error, PipelineError { kind: ErrorKind::ScriptLoad, detail: detail.to_string() });
        assert!(error.kind.is_fatal());
    }
}

#[test]
fn a_game_is_rendered_by_its_script_with_embed() {
    let set = ScriptSet {
        scripts: vec![script("netrunner", &["helper", "embed"]), script("arkham", &["helper"])],
    };
    assert!(set.renders("netrunner"));
    assert!(!set.renders("arkham"));
    assert!(!set.renders("Netrunner"));
    assert!(!set.renders("lotr"));
    assert!(set.scripts[0].exposes("helper"));
    assert!(!set.scripts[1].exposes("embed"));
}

#[test]
fn a_second_script_of_a_game_may_render_it() {
    let set = ScriptSet { scripts: vec![script("netrunner", &[]), script("netrunner", &["embed"])] };
    assert!(set.renders("netrunner"));
}

#[test]
fn every_game_of_the_store_needs_a_script() {
    let set = ScriptSet { scripts: vec![script("netrunner", &["embed"]), script("arkham", &["embed"])] };
    assert_eq!(set.validate(&games(&["netrunner", "arkham", "netrunner"])), Ok(()));
    assert_eq!(set.validate(&games(&[])), Ok(()));
    assert_eq!(
        set.validate(&games(&["netrunner", "lotr", "keyforge"])),
        Err(PipelineError {
            kind: ErrorKind::ScriptLoad,
            detail: "no script renders the game lotr".to_string(),
        })
    );
    let empty = ScriptSet { scripts: vec![] };
    assert_eq!(
        empty.validate(&games(&["netrunner"])),
        Err(PipelineError {
            kind: ErrorKind::ScriptLoad,
            detail: "no script renders the game netrunner".to_string(),
        })
    );
}

#[test]
fn only_script_load_failures_are_fatal() {
    assert!(ErrorKind::ScriptLoad.is_fatal());
    for kind in [
        ErrorKind::Store,
        ErrorKind::DisambiguationTimeout,
        ErrorKind::DisambiguationTransport,
        ErrorKind::ScriptRuntime,
        ErrorKind::Conversion,
        ErrorKind::Delivery,
    ] {
        assert!(!kind.is_fatal());
    }
}

#[test]
fn errors_are_reported_with_kind_and_detail() {
    let error = PipelineError { kind: ErrorKind::ScriptRuntime, detail: "missing function".to_string() };
    assert_eq!(error.to_string(), "ScriptRuntimeError: missing function");
    assert_eq!(ErrorKind::Store.as_str(), "StoreError");
    assert_eq!(ErrorKind::DisambiguationTimeout.as_str(), "DisambiguationTimeout");
    assert_eq!(ErrorKind::DisambiguationTransport.as_str(), "DisambiguationTransportError");
    assert_eq!(ErrorKind::ScriptLoad.as_str(), "ScriptLoadError");
    assert_eq!(ErrorKind::Conversion.as_str(), "ConversionError");
    assert_eq!(ErrorKind::Delivery.as_str(), "DeliveryError");
}

fn perform(step: LoadStep) -> LoadAction {
    LoadAction::Perform(step)
}

fn fail(detail: &str) -> LoadAction {
    LoadAction::Fail(PipelineError { kind: ErrorKind::ScriptLoad, detail: detail.to_string() })
}

fn failure(cause: &str, diagnostics: bool) -> LoadEvent {
    LoadEvent::Failed { cause: cause.to_string(), diagnostics }
}

/// A load that has listed `entries` and waits for its first insertion or, without script
/// files, for the compilation.
fn listed(entries: &[&str]) -> (Loader, LoadAction) {
    let (mut loader, mut action) = create_rune_runtime();
    for _ in 0..4 {
        (loader, action) = loader.step(LoadEvent::Done);
    }
    assert_eq!(action, perform(LoadStep::ReadDirectory));
    loader.step(LoadEvent::Listed(games(entries)))
}

/// A load that has compiled the scripts in `entries` and waits for their inspection.
fn compiled(entries: &[&str]) -> (Loader, LoadAction) {
    let (mut loader, mut action) = listed(entries);
    while let LoadAction::Perform(LoadStep::InsertSource(_)) = action {
        (loader, action) = loader.step(LoadEvent::Done);
    }
    assert_eq!(action, perform(LoadStep::Prepare));
    loader.step(LoadEvent::Done)
}

#[test]
fn load_steps_follow_one_another() {
    let (loader, action) = create_rune_runtime();
    assert_eq!(action, perform(LoadStep::CreateContext));
    assert!(!loader.is_ready());
    let (loader, action) = loader.step(LoadEvent::Done);
    assert_eq!(action, perform(LoadStep::LoadJsonModule));
    let (loader, action) = loader.step(LoadEvent::Done);
    assert_eq!(action, perform(LoadStep::InstallModule));
    let (loader, action) = loader.step(LoadEvent::Done);
    assert_eq!(action, perform(LoadStep::CreateRuntime));
    let (loader, action) = loader.step(LoadEvent::Done);
    assert_eq!(action, perform(LoadStep::ReadDirectory));
    let entries = games(&["README.md", "netrunner.rn", ".rn", "arkham.rn", "notes.txt"]);
    let (loader, action) = loader.step(LoadEvent::Listed(entries));
    assert_eq!(action, perform(LoadStep::InsertSource("games/netrunner.rn".to_string())));
    assert_eq!(loader.names, games(&["netrunner.rn", "arkham.rn"]));
    let (loader, action) = loader.step(LoadEvent::Done);
    assert_eq!(action, perform(LoadStep::InsertSource("games/arkham.rn".to_string())));
    assert_eq!(loader.inserted, 1);
    let (loader, action) = loader.step(LoadEvent::Done);
    assert_eq!(action, perform(LoadStep::Prepare));
    assert_eq!(loader.inserted, 2);
    let (loader, action) = loader.step(LoadEvent::Done);
    assert_eq!(action, perform(LoadStep::InspectScripts(games(&["netrunner", "arkham"]))));
    let set = ScriptSet { scripts: vec![script("netrunner", &["embed"]), script("arkham", &["embed"])] };
    let (loader, action) = loader.step(LoadEvent::Inspected(set.clone()));
    assert_eq!(action, perform(LoadStep::ListGames));
    assert_eq!(loader.scripts, set);
    let (loader, action) = loader.step(LoadEvent::Referred(games(&["arkham", "netrunner", "arkham"])));
    assert_eq!(action, LoadAction::Serve);
    assert!(loader.is_ready());
    let (loader, action) = loader.step(LoadEvent::Done);
    assert_eq!(action, LoadAction::Nothing);
    assert!(loader.is_ready());
}

#[test]
fn directory_without_scripts_goes_on_to_compile() {
    let (loader, action) = listed(&["README.md", "netrunner.json"]);
    assert_eq!(action, perform(LoadStep::Prepare));
    assert_eq!(loader.names, Vec::<String>::new());
    let (loader, action) = listed(&[]);
    assert_eq!(action, perform(LoadStep::Prepare));
    let (_, action) = loader.step(LoadEvent::Done);
    assert_eq!(action, perform(LoadStep::InspectScripts(vec![])));
}

#[test]
fn a_step_that_fails_stops_the_load() {
    let (loader, _) = create_rune_runtime();
    let (loader, action) = loader.step(failure("out of memory", false));
    assert_eq!(action, fail("Failed to create context: out of memory"));
    assert_eq!(loader.phase, LoadPhase::Stopped);
    for event in [LoadEvent::Done, LoadEvent::Listed(games(&["a.rn"])), LoadEvent::Referred(vec![])] {
        let (next, action) = loader.clone().step(event);
        assert_eq!(action, LoadAction::Nothing);
        assert_eq!(next, loader);
        assert!(!next.is_ready());
    }

    let (loader, _) = listed(&["netrunner.rn", "arkham.rn"]);
    let (loader, _) = loader.step(LoadEvent::Done);
    let (loader, action) = loader.step(failure("permission denied", true));
    assert_eq!(action, fail("Failed to insert source at games/arkham.rn: permission denied"));
    assert_eq!(loader.phase, LoadPhase::Stopped);
}

#[test]
fn missing_directory_is_a_load_failure() {
    let (mut loader, mut action) = create_rune_runtime();
    for _ in 0..4 {
        (loader, action) = loader.step(LoadEvent::Done);
    }
    assert_eq!(action, perform(LoadStep::ReadDirectory));
    let (_, action) = loader.step(failure("No such file or directory", false));
    assert_eq!(action, fail("Script directory doesn't exist: No such file or directory"));
}

#[test]
fn failed_compilation_writes_its_diagnostics_first() {
    let (loader, action) = listed(&["netrunner.rn"]);
    assert_eq!(action, perform(LoadStep::InsertSource("games/netrunner.rn".to_string())));
    let (loader, action) = loader.step(LoadEvent::Done);
    assert_eq!(action, perform(LoadStep::Prepare));

    let (emitting, action) = loader.clone().step(failure("1 error", true));
    assert_eq!(action, perform(LoadStep::EmitDiagnostics));
    assert!(matches!(emitting.phase, LoadPhase::Emitting(_)));
    let (stopped, action) = emitting.clone().step(LoadEvent::Done);
    assert_eq!(action, fail("Failed to prepare rune: 1 error"));
    assert_eq!(stopped.phase, LoadPhase::Stopped);
    let (stopped, action) = emitting.step(failure("broken pipe", false));
    assert_eq!(action, fail("Failed to write the diagnostics: broken pipe"));
    assert_eq!(stopped.phase, LoadPhase::Stopped);

    let (stopped, action) = loader.step(failure("1 error", false));
    assert_eq!(action, fail("Failed to prepare rune: 1 error"));
    assert_eq!(stopped.phase, LoadPhase::Stopped);
}

#[test]
fn a_game_without_its_script_stops_the_load() {
    let (loader, _) = compiled(&["netrunner.rn"]);
    let set = ScriptSet { scripts: vec![script("netrunner", &["embed"])] };
    let (loader, _) = loader.step(LoadEvent::Inspected(set));
    let (loader, action) = loader.step(LoadEvent::Referred(games(&["netrunner", "lotr"])));
    assert_eq!(action, fail("no script renders the game lotr"));
    assert!(!loader.is_ready());
    let (loader, action) = loader.step(LoadEvent::Referred(games(&["netrunner"])));
    assert_eq!(action, LoadAction::Nothing);
    assert!(!loader.is_ready());
}

#[test]
fn a_script_without_embed_does_not_render_its_game() {
    let (loader, _) = compiled(&["netrunner.rn"]);
    let set = ScriptSet { scripts: vec![script("netrunner", &["helper"])] };
    let (loader, _) = loader.step(LoadEvent::Inspected(set));
    let (_, action) = loader.step(LoadEvent::Referred(games(&["netrunner"])));
    assert_eq!(action, fail("no script renders the game netrunner"));
}

#[test]
fn inspection_and_listing_may_fail() {
    let (loader, _) = compiled(&["netrunner.rn"]);
    let (_, action) = loader.clone().step(failure("no such function", false));
    assert_eq!(action, fail("Failed to inspect the scripts: no such function"));
    let (loader, _) = loader.step(LoadEvent::Inspected(ScriptSet { scripts: vec![] }));
    let (_, action) = loader.step(failure("database is locked", false));
    assert_eq!(action, fail("Failed to list the games of the store: database is locked"));
}

#[test]
fn events_that_a_step_does_not_end_with_change_nothing() {
    let (loader, _) = create_rune_runtime();
    for event in [
        LoadEvent::Listed(games(&["a.rn"])),
        LoadEvent::Inspected(ScriptSet { scripts: vec![] }),
        LoadEvent::Referred(vec![]),
    ] {
        let (next, action) = loader.clone().step(event);
        assert_eq!(action, LoadAction::Nothing);
        assert_eq!(next, loader);
    }
    let (loader, _) = listed(&[]);
    let (next, action) = loader.clone().step(LoadEvent::Referred(vec![]));
    assert_eq!(action, LoadAction::Nothing);
    assert_eq!(next, loader);
}
