//! Loading the scripts, from an empty context to a set that may serve, as a
//! sequence of decisions.
//!
//! Making the context, reading the directory and compiling the scripts is
//! the caller's work. A [`Loader`] says which step comes next
//! ([`LoadAction`]), the caller performs it and hands back what came of it
//! ([`LoadEvent`]). Every script file of the directory is inserted, in the
//! order of the listing, before the scripts are compiled; a step that fails
//! stops the load for good; and a set is served only when every game that
//! the stored cards refer to has its script.

use vstd::prelude::*;
use vstd::string::*;
use crate::error::{PipelineError, PipelineErrorView};
use crate::resolver::{copy_strings, strings_view};
use crate::scripting::engine::{
    first_unrendered_is_first, game_of, has_renderer, script_directory, script_game, validated,
    LoadStep, LoadStepView, RenderScriptView, ScriptSet,
};

verus! {

/// Where a load stands.
#[derive(Clone, Debug, PartialEq, Eq)]
pub enum LoadPhase {
    /// It waits for the outcome of this step.
    Performing(LoadStep),
    /// The compilation failed with this failure, and the load waits for its
    /// diagnostics to be written out.
    Emitting(PipelineError),
    /// The scripts are loaded, and may serve.
    Ready,
    /// A step failed: nothing is served.
    Stopped,
}

/// What a [`LoadPhase`] holds.
pub enum LoadPhaseView {
    Performing(LoadStepView),
    Emitting(PipelineErrorView),
    Ready,
    Stopped,
}

impl View for LoadPhase {
    type V = LoadPhaseView;

    open spec fn view(&self) -> LoadPhaseView {
        match self {
            LoadPhase::Performing(step) => LoadPhaseView::Performing(step@),
            LoadPhase::Emitting(failure) => LoadPhaseView::Emitting(failure@),
            LoadPhase::Ready => LoadPhaseView::Ready,
            LoadPhase::Stopped => LoadPhaseView::Stopped,
        }
    }
}

/// A load: where it stands, the names of the script files of the directory,
/// how many of them are inserted, and the scripts as far as they are known.
#[derive(Clone, Debug, PartialEq, Eq)]
pub struct Loader {
    pub phase: LoadPhase,
    pub names: Vec<String>,
    pub inserted: usize,
    pub scripts: ScriptSet,
}

/// What a [`Loader`] holds.
pub struct LoaderView {
    pub phase: LoadPhaseView,
    pub names: Seq<Seq<char>>,
    pub inserted: nat,
    pub scripts: Seq<RenderScriptView>,
}

impl View for Loader {
    type V = LoaderView;

    open spec fn view(&self) -> LoaderView {
        LoaderView {
            phase: self.phase@,
            names: strings_view(self.names@),
            inserted: self.inserted as nat,
            scripts: self.scripts@,
        }
    }
}

/// What came of the last step.
#[derive(Clone, Debug, PartialEq, Eq)]
pub enum LoadEvent {
    /// The step is done.
    Done,
    /// The directory holds the files with these names.
    Listed(Vec<String>),
    /// The scripts expose these functions.
    Inspected(ScriptSet),
    /// The stored cards refer to these games.
    Referred(Vec<String>),
    /// The step failed for this reason; `diagnostics` says whether it left
    /// diagnostics behind.
    Failed { cause: String, diagnostics: bool },
}

/// What a [`LoadEvent`] holds.
pub enum LoadEventView {
    Done,
    Listed(Seq<Seq<char>>),
    Inspected(Seq<RenderScriptView>),
    Referred(Seq<Seq<char>>),
    Failed { cause: Seq<char>, diagnostics: bool },
}

impl View for LoadEvent {
    type V = LoadEventView;

    open spec fn view(&self) -> LoadEventView {
        match self {
            LoadEvent::Done => LoadEventView::Done,
            LoadEvent::Listed(names) => LoadEventView::Listed(strings_view(names@)),
            LoadEvent::Inspected(scripts) => LoadEventView::Inspected(scripts@),
            LoadEvent::Referred(games) => LoadEventView::Referred(strings_view(games@)),
            LoadEvent::Failed { cause, diagnostics } => LoadEventView::Failed {
                cause: cause@,
                diagnostics: *diagnostics,
            },
        }
    }
}

/// What is to be done next.
#[derive(Clone, Debug, PartialEq, Eq)]
pub enum LoadAction {
    /// Perform this step.
    Perform(LoadStep),
    /// Refuse to serve, for this failure.
    Fail(PipelineError),
    /// Serve with the scripts that were loaded.
    Serve,
    /// Nothing.
    Nothing,
}

/// What a [`LoadAction`] holds.
pub enum LoadActionView {
    Perform(LoadStepView),
    Fail(PipelineErrorView),
    Serve,
    Nothing,
}

impl View for LoadAction {
    type V = LoadActionView;

    open spec fn view(&self) -> LoadActionView {
        match self {
            LoadAction::Perform(step) => LoadActionView::Perform(step@),
            LoadAction::Fail(error) => LoadActionView::Fail(error@),
            LoadAction::Serve => LoadActionView::Serve,
            LoadAction::Nothing => LoadActionView::Nothing,
        }
    }
}

/// The script files among the files named `names`, in the same order.
pub open spec fn script_names(names: Seq<Seq<char>>) -> Seq<Seq<char>>
    decreases names.len(),
{
    if names.len() == 0 {
        Seq::empty()
    } else if game_of(names.last()) is Some {
        script_names(names.drop_last()).push(names.last())
    } else {
        script_names(names.drop_last())
    }
}

/// The path of the file named `name` in the script directory.
pub open spec fn path_of(name: Seq<char>) -> Seq<char> {
    script_directory() + "/"@ + name
}

/// The game that the script file named `name` renders; a name that names no
/// script file stands for itself.
pub open spec fn game_named(name: Seq<char>) -> Seq<char> {
    match game_of(name) {
        Some(game) => game,
        None => name,
    }
}

/// The games that the script files named `names` render, in the same order.
pub open spec fn games_of(names: Seq<Seq<char>>) -> Seq<Seq<char>> {
    Seq::new(names.len(), |i: int| game_named(names[i]))
}

/// The load goes on with `step`.
pub open spec fn perform(loader: LoaderView, step: LoadStepView) -> (LoaderView, LoadActionView) {
    (
        LoaderView { phase: LoadPhaseView::Performing(step), ..loader },
        LoadActionView::Perform(step),
    )
}

/// The load stops for `failure`.
pub open spec fn stop(loader: LoaderView, failure: PipelineErrorView) -> (
    LoaderView,
    LoadActionView,
) {
    (
        LoaderView { phase: LoadPhaseView::Stopped, ..loader },
        LoadActionView::Fail(failure),
    )
}

/// The load goes on with the next script file that is not inserted yet, or,
/// when all are, with the compilation.
pub open spec fn insert_next(loader: LoaderView) -> (LoaderView, LoadActionView) {
    if loader.inserted < loader.names.len() {
        perform(loader, LoadStepView::InsertSource(path_of(loader.names[loader.inserted as int])))
    } else {
        perform(loader, LoadStepView::Prepare)
    }
}

/// The start of a load: nothing is listed, nothing inserted, and the first
/// step is to make the context.
pub open spec fn load_start() -> (LoaderView, LoadActionView) {
    (
        LoaderView {
            phase: LoadPhaseView::Performing(LoadStepView::CreateContext),
            names: Seq::empty(),
            inserted: 0,
            scripts: Seq::empty(),
        },
        LoadActionView::Perform(LoadStepView::CreateContext),
    )
}

/// What a load does when `event` arrives: where it stands then, and what is
/// to be done next.
///
/// The steps follow one another in a fixed order. A step that fails stops
/// the load with the failure of that step; only a compilation that fails
/// and leaves diagnostics has them written out first. An event that the
/// step does not end with changes nothing and asks for nothing, and a load
/// that is ready or stopped stays so.
pub open spec fn load_step_of(loader: LoaderView, event: LoadEventView) -> (
    LoaderView,
    LoadActionView,
) {
    match (loader.phase, event) {
        (LoadPhaseView::Emitting(failure), LoadEventView::Done) => stop(loader, failure),
        (LoadPhaseView::Emitting(_), LoadEventView::Failed { cause, diagnostics }) => stop(
            loader,
            LoadStepView::EmitDiagnostics.failure(cause),
        ),
        (
            LoadPhaseView::Performing(LoadStepView::Prepare),
            LoadEventView::Failed { cause, diagnostics },
        ) => {
            if diagnostics {
                (
                    LoaderView {
                        phase: LoadPhaseView::Emitting(LoadStepView::Prepare.failure(cause)),
                        ..loader
                    },
                    LoadActionView::Perform(LoadStepView::EmitDiagnostics),
                )
            } else {
                stop(loader, LoadStepView::Prepare.failure(cause))
            }
        },
        (LoadPhaseView::Performing(step), LoadEventView::Failed { cause, diagnostics }) => stop(
            loader,
            step.failure(cause),
        ),
        (LoadPhaseView::Performing(LoadStepView::CreateContext), LoadEventView::Done) => perform(
            loader,
            LoadStepView::LoadJsonModule,
        ),
        (LoadPhaseView::Performing(LoadStepView::LoadJsonModule), LoadEventView::Done) => perform(
            loader,
            LoadStepView::InstallModule,
        ),
        (LoadPhaseView::Performing(LoadStepView::InstallModule), LoadEventView::Done) => perform(
            loader,
            LoadStepView::CreateRuntime,
        ),
        (LoadPhaseView::Performing(LoadStepView::CreateRuntime), LoadEventView::Done) => perform(
            loader,
            LoadStepView::ReadDirectory,
        ),
        (
            LoadPhaseView::Performing(LoadStepView::ReadDirectory),
            LoadEventView::Listed(names),
        ) => insert_next(LoaderView { names: script_names(names), inserted: 0, ..loader }),
        (LoadPhaseView::Performing(LoadStepView::InsertSource(_)), LoadEventView::Done) => {
            if loader.inserted < loader.names.len() {
                insert_next(LoaderView { inserted: loader.inserted + 1, ..loader })
            } else {
                insert_next(loader)
            }
        },
        (LoadPhaseView::Performing(LoadStepView::Prepare), LoadEventView::Done) => perform(
            loader,
            LoadStepView::InspectScripts(games_of(loader.names)),
        ),
        (
            LoadPhaseView::Performing(LoadStepView::InspectScripts(_)),
            LoadEventView::Inspected(scripts),
        ) => perform(LoaderView { scripts, ..loader }, LoadStepView::ListGames),
        (LoadPhaseView::Performing(LoadStepView::ListGames), LoadEventView::Referred(games)) => {
            match validated(loader.scripts, games) {
                Ok(()) => (
                    LoaderView { phase: LoadPhaseView::Ready, ..loader },
                    LoadActionView::Serve,
                ),
                Err(failure) => stop(loader, failure),
            }
        },
        _ => (loader, LoadActionView::Nothing),
    }
}

/// The script files among `entries`, in the same order.
fn script_files(entries: &Vec<String>) -> (names: Vec<String>)
    ensures
        strings_view(names@) == script_names(strings_view(entries@)),
{
    let mut names: Vec<String> = Vec::new();
    let mut i: usize = 0;
    let ghost all = strings_view(entries@);
    assert(all.take(0) =~= Seq::<Seq<char>>::empty());
    assert(strings_view(names@) =~= Seq::<Seq<char>>::empty());
    while i < entries.len()
        invariant
            i <= entries.len(),
            all == strings_view(entries@),
            strings_view(names@) == script_names(all.take(i as int)),
        decreases entries.len() - i,
    {
        assert(all.take(i as int + 1).drop_last() =~= all.take(i as int));
        if script_game(entries[i].as_str()).is_some() {
            let ghost before = strings_view(names@);
            names.push(entries[i].clone());
            assert(strings_view(names@) =~= before.push(entries@[i as int]@));
        }
        i += 1;
    }
    assert(all.take(i as int) =~= all);
    names
}

/// The games that the script files named `names` render, in the same order.
fn script_games(names: &Vec<String>) -> (games: Vec<String>)
    ensures
        strings_view(games@) == games_of(strings_view(names@)),
{
    let mut games: Vec<String> = Vec::new();
    let mut i: usize = 0;
    while i < names.len()
        invariant
            i <= names.len(),
            games.len() == i,
            forall|k: int| 0 <= k < i ==> games@[k]@ == game_named(names@[k]@),
        decreases names.len() - i,
    {
        let game = match script_game(names[i].as_str()) {
            Some(game) => game,
            None => names[i].clone(),
        };
        games.push(game);
        i += 1;
    }
    assert(strings_view(games@) =~= games_of(strings_view(names@)));
    games
}

/// The path of the file named `name` in the script directory.
fn script_path(name: &str) -> (path: String)
    ensures
        path@ == path_of(name@),
{
    let mut path = String::from_str("games");
    path.append("/");
    path.append(name);
    path
}

/// The load with these parts.
fn at(phase: LoadPhase, names: Vec<String>, inserted: usize, scripts: ScriptSet) -> (loader: Loader)
    ensures
        loader == (Loader { phase, names, inserted, scripts }),
{
    Loader { phase, names, inserted, scripts }
}

/// Starts to load the scripts: the first step is to make the context.
pub fn create_rune_runtime() -> (next: (Loader, LoadAction))
    ensures
        (next.0@, next.1@) == load_start(),
{
    let loader = Loader {
        phase: LoadPhase::Performing(LoadStep::CreateContext),
        names: Vec::new(),
        inserted: 0,
        scripts: ScriptSet { scripts: Vec::new() },
    };
    assert(loader@.names =~= Seq::empty());
    assert(loader@.scripts =~= Seq::empty());
    (loader, LoadAction::Perform(LoadStep::CreateContext))
}

/// Goes on with `step`, of which `again` is a copy.
fn go(
    step: LoadStep,
    again: LoadStep,
    names: Vec<String>,
    inserted: usize,
    scripts: ScriptSet,
) -> (next: (Loader, LoadAction))
    requires
        step@ == again@,
    ensures
        next.0 == (Loader { phase: LoadPhase::Performing(step), names, inserted, scripts }),
        next.1 == LoadAction::Perform(again),
{
    (at(LoadPhase::Performing(step), names, inserted, scripts), LoadAction::Perform(again))
}

impl Loader {
    /// Whether the scripts are loaded and may serve.
    pub fn is_ready(&self) -> (r: bool)
        ensures
            r == (self@.phase is Ready),
    {
        match &self.phase {
            LoadPhase::Ready => true,
            _ => false,
        }
    }

    /// Goes on with the next script file that is not inserted yet, or, when
    /// all are, with the compilation.
    fn insert_next(names: Vec<String>, inserted: usize, scripts: ScriptSet) -> (next: (
        Loader,
        LoadAction,
    ))
        ensures
            (next.0@, next.1@) == insert_next(
                LoaderView {
                    phase: LoadPhaseView::Stopped,
                    names: strings_view(names@),
                    inserted: inserted as nat,
                    scripts: scripts@,
                },
            ),
    {
        if inserted < names.len() {
            let path = script_path(names[inserted].as_str());
            let again = path.clone();
            go(
                LoadStep::InsertSource(path),
                LoadStep::InsertSource(again),
                names,
                inserted,
                scripts,
            )
        } else {
            go(LoadStep::Prepare, LoadStep::Prepare, names, inserted, scripts)
        }
    }

    /// Takes what came of the last step and decides what is to be done
    /// next.
    pub fn step(self, event: LoadEvent) -> (next: (Loader, LoadAction))
        ensures
            (next.0@, next.1@) == load_step_of(self@, event@),
    {
        let Loader { phase, names, inserted, scripts } = self;
        match phase {
            LoadPhase::Emitting(failure) => match event {
                LoadEvent::Done => (
                    at(LoadPhase::Stopped, names, inserted, scripts),
                    LoadAction::Fail(failure),
                ),
                LoadEvent::Failed { cause, diagnostics } => (
                    at(LoadPhase::Stopped, names, inserted, scripts),
                    LoadAction::Fail(LoadStep::EmitDiagnostics.failed(cause.as_str())),
                ),
                _ => (
                    at(LoadPhase::Emitting(failure), names, inserted, scripts),
                    LoadAction::Nothing,
                ),
            },
            LoadPhase::Performing(step) => match event {
                LoadEvent::Failed { cause, diagnostics } => {
                    let failure = step.failed(cause.as_str());
                    let emits = match &step {
                        LoadStep::Prepare => diagnostics,
                        _ => false,
                    };
                    if emits {
                        (
                            at(LoadPhase::Emitting(failure), names, inserted, scripts),
                            LoadAction::Perform(LoadStep::EmitDiagnostics),
                        )
                    } else {
                        (
                            at(LoadPhase::Stopped, names, inserted, scripts),
                            LoadAction::Fail(failure),
                        )
                    }
                },
                LoadEvent::Done => match step {
                    LoadStep::CreateContext => go(
                        LoadStep::LoadJsonModule,
                        LoadStep::LoadJsonModule,
                        names,
                        inserted,
                        scripts,
                    ),
                    LoadStep::LoadJsonModule => go(
                        LoadStep::InstallModule,
                        LoadStep::InstallModule,
                        names,
                        inserted,
                        scripts,
                    ),
                    LoadStep::InstallModule => go(
                        LoadStep::CreateRuntime,
                        LoadStep::CreateRuntime,
                        names,
                        inserted,
                        scripts,
                    ),
                    LoadStep::CreateRuntime => go(
                        LoadStep::ReadDirectory,
                        LoadStep::ReadDirectory,
                        names,
                        inserted,
                        scripts,
                    ),
                    LoadStep::InsertSource(_) => {
                        if inserted < names.len() {
                            Loader::insert_next(names, inserted + 1, scripts)
                        } else {
                            Loader::insert_next(names, inserted, scripts)
                        }
                    },
                    LoadStep::Prepare => {
                        let games = script_games(&names);
                        let again = copy_strings(&games);
                        go(
                            LoadStep::InspectScripts(games),
                            LoadStep::InspectScripts(again),
                            names,
                            inserted,
                            scripts,
                        )
                    },
                    step => (
                        at(LoadPhase::Performing(step), names, inserted, scripts),
                        LoadAction::Nothing,
                    ),
                },
                LoadEvent::Listed(entries) => match step {
                    LoadStep::ReadDirectory => Loader::insert_next(
                        script_files(&entries),
                        0,
                        scripts,
                    ),
                    step => (
                        at(LoadPhase::Performing(step), names, inserted, scripts),
                        LoadAction::Nothing,
                    ),
                },
                LoadEvent::Inspected(found) => match step {
                    LoadStep::InspectScripts(_) => go(
                        LoadStep::ListGames,
                        LoadStep::ListGames,
                        names,
                        inserted,
                        found,
                    ),
                    step => (
                        at(LoadPhase::Performing(step), names, inserted, scripts),
                        LoadAction::Nothing,
                    ),
                },
                LoadEvent::Referred(games) => match step {
                    LoadStep::ListGames => match scripts.validate(&games) {
                        Ok(()) => (
                            at(LoadPhase::Ready, names, inserted, scripts),
                            LoadAction::Serve,
                        ),
                        Err(failure) => (
                            at(LoadPhase::Stopped, names, inserted, scripts),
                            LoadAction::Fail(failure),
                        ),
                    },
                    step => (
                        at(LoadPhase::Performing(step), names, inserted, scripts),
                        LoadAction::Nothing,
                    ),
                },
            },
            LoadPhase::Ready => (
                at(LoadPhase::Ready, names, inserted, scripts),
                LoadAction::Nothing,
            ),
            LoadPhase::Stopped => (
                at(LoadPhase::Stopped, names, inserted, scripts),
                LoadAction::Nothing,
            ),
        }
    }
}

/// Where a load stands after `events` have arrived one after another.
pub open spec fn load_after(loader: LoaderView, events: Seq<LoadEventView>) -> LoaderView
    decreases events.len(),
{
    if events.len() == 0 {
        loader
    } else {
        load_after(load_step_of(loader, events[0]).0, events.drop_first())
    }
}

/// The actions that a load asks for as `events` arrive one after another.
pub open spec fn load_actions_of(loader: LoaderView, events: Seq<LoadEventView>) -> Seq<
    LoadActionView,
>
    decreases events.len(),
{
    if events.len() == 0 {
        Seq::empty()
    } else {
        seq![load_step_of(loader, events[0]).1] + load_actions_of(
            load_step_of(loader, events[0]).0,
            events.drop_first(),
        )
    }
}

/// Whether a load can no longer come to serve: it has stopped, or waits for
/// the diagnostics of a compilation that failed.
pub open spec fn is_doomed(phase: LoadPhaseView) -> bool {
    phase is Stopped || phase is Emitting
}

/// A load that can no longer come to serve never asks to serve, whatever
/// arrives.
pub proof fn doomed_load_never_serves(loader: LoaderView, events: Seq<LoadEventView>)
    requires
        is_doomed(loader.phase),
    ensures
        load_actions_of(loader, events).len() == events.len(),
        forall|k: int|
            0 <= k < events.len() ==> !(load_actions_of(loader, events)[k] is Serve),
        is_doomed(load_after(loader, events).phase),
    decreases events.len(),
{
    if events.len() > 0 {
        doomed_load_never_serves(load_step_of(loader, events[0]).0, events.drop_first());
    }
}

/// A step that fails stops the load for good. The failure is a script-load
/// failure, which is fatal; it is reported at once, or, for a compilation
/// that left diagnostics, when they are written out. Whatever arrives
/// later, the load never asks to serve.
pub proof fn failed_step_stops_the_load(
    loader: LoaderView,
    cause: Seq<char>,
    diagnostics: bool,
    later: Seq<LoadEventView>,
)
    requires
        loader.phase is Performing || loader.phase is Emitting,
    ensures
        ({
            let failed = load_step_of(loader, LoadEventView::Failed { cause, diagnostics });
            &&& is_doomed(failed.0.phase)
            &&& failed.1 matches LoadActionView::Fail(failure) ==> failure.kind.fatal()
            &&& failed.1 is Fail || failed.1 == LoadActionView::Perform(
                LoadStepView::EmitDiagnostics,
            )
            &&& failed.0.phase matches LoadPhaseView::Emitting(failure) ==> failure.kind.fatal()
            &&& forall|k: int|
                0 <= k < later.len() ==> !(load_actions_of(failed.0, later)[k] is Serve)
        }),
{
    doomed_load_never_serves(
        load_step_of(loader, LoadEventView::Failed { cause, diagnostics }).0,
        later,
    );
}

/// `count` events that say that a step is done.
pub open spec fn dones(count: nat) -> Seq<LoadEventView> {
    Seq::new(count, |i: int| LoadEventView::Done)
}

/// Every script file of the directory is inserted before the scripts are
/// compiled, in the order of the listing: once the directory is listed,
/// the load asks for the first script file, and when `done` of the
/// insertions are done, it waits for the next script file, or, when every
/// one is inserted, for the compilation.
pub proof fn every_script_is_inserted_before_compiling(
    loader: LoaderView,
    entries: Seq<Seq<char>>,
    done: nat,
)
    requires
        loader.phase == LoadPhaseView::Performing(LoadStepView::ReadDirectory),
        done <= script_names(entries).len(),
    ensures
        ({
            let names = script_names(entries);
            let listed = load_step_of(loader, LoadEventView::Listed(entries));
            let reached = load_after(listed.0, dones(done));
            &&& reached.names == names
            &&& reached.inserted == done
            &&& reached.phase == if done < names.len() {
                LoadPhaseView::Performing(LoadStepView::InsertSource(path_of(names[done as int])))
            } else {
                LoadPhaseView::Performing(LoadStepView::Prepare)
            }
        }),
    decreases done,
{
    let listed = load_step_of(loader, LoadEventView::Listed(entries));
    if done > 0 {
        let before = (done - 1) as nat;
        every_script_is_inserted_before_compiling(loader, entries, before);
        load_after_one_more(listed.0, dones(before), LoadEventView::Done);
        assert(dones(before).push(LoadEventView::Done) =~= dones(done));
    }
}

/// Where a load stands after one more event is where it stands after the
/// events before, stepped once.
proof fn load_after_one_more(loader: LoaderView, events: Seq<LoadEventView>, last: LoadEventView)
    ensures
        load_after(loader, events.push(last)) == load_step_of(load_after(loader, events), last).0,
    decreases events.len(),
{
    let all = events.push(last);
    if events.len() == 0 {
        assert(all.drop_first() =~= Seq::<LoadEventView>::empty());
    } else {
        assert(all.drop_first() =~= events.drop_first().push(last));
        load_after_one_more(load_step_of(loader, events[0]).0, events.drop_first(), last);
    }
}

/// A load comes to serve in one way only: the games that the stored cards
/// refer to arrive while it waits for them, and every one of them has a
/// script that renders it.
pub proof fn only_a_whole_set_serves(loader: LoaderView, event: LoadEventView)
    ensures
        load_step_of(loader, event).1 is Serve <==> {
            &&& loader.phase == LoadPhaseView::Performing(LoadStepView::ListGames)
            &&& event matches LoadEventView::Referred(games)
            &&& forall|j: int|
                0 <= j < games.len() ==> has_renderer(loader.scripts, #[trigger] games[j])
        },
        load_step_of(loader, event).0.phase is Ready <==> load_step_of(loader, event).1 is Serve
            || loader.phase is Ready,
{
    if event is Referred {
        first_unrendered_is_first(loader.scripts, event->Referred_0);
    }
}

} // verus!
