//! The set of render scripts: which files hold one, which game a script
//! renders, and whether the set is fit to serve.
//!
//! Scripts are loaded once, when the process starts. Reading the directory
//! and compiling the files is the caller's work; which files count, what a
//! failure is called and whether the loaded set may serve is decided here.

use vstd::prelude::*;
use vstd::string::*;
use crate::error::{ErrorKind, PipelineError, PipelineErrorView};
use crate::resolver::strings_view;
use crate::scripting::embed_name;
use crate::text::{chars_of, same_text};

verus! {

/// The directory that holds the scripts, one file for each game.
pub open spec fn script_directory() -> Seq<char> {
    "games"@
}

/// The end of the name of a file that holds a script.
pub open spec fn script_suffix() -> Seq<char> {
    ".rn"@
}

/// The game that the file named `file_name` renders: what stands before the
/// suffix `.rn`, where the name ends with the suffix and has something before
/// it. Any other file holds no script.
pub open spec fn game_of(file_name: Seq<char>) -> Option<Seq<char>> {
    if file_name.len() > 3 && file_name.subrange(file_name.len() - 3, file_name.len() as int)
        == script_suffix() {
        Some(file_name.subrange(0, file_name.len() - 3))
    } else {
        None
    }
}

/// The directory that holds the scripts.
pub fn scripts_directory() -> (name: &'static str)
    ensures
        name@ == script_directory(),
{
    "games"
}

/// The game that the file named `file_name` renders, if the file holds a
/// script.
pub fn script_game(file_name: &str) -> (game: Option<String>)
    ensures
        game is Some <==> game_of(file_name@) is Some,
        game matches Some(g) ==> game_of(file_name@) == Some(g@),
{
    let chars = chars_of(file_name);
    let n = chars.len();
    proof {
        reveal_strlit(".rn");
    }
    if n > 3 && chars[n - 3] == '.' && chars[n - 2] == 'r' && chars[n - 1] == 'n' {
        assert(file_name@.subrange(n - 3, n as int) =~= script_suffix());
        Some(String::from_str(file_name.substring_char(0, n - 3)))
    } else {
        proof {
            if n > 3 {
                let tail = file_name@.subrange(n - 3, n as int);
                assert(tail[0] == chars@[n - 3] && tail[1] == chars@[n - 2] && tail[2] == chars@[n
                    - 1]);
            }
        }
        None
    }
}

/// A step of loading the scripts that can fail.
#[derive(Clone, Debug, PartialEq, Eq)]
pub enum LoadStep {
    /// Making the context that scripts are compiled in.
    CreateContext,
    /// Loading the JSON module.
    LoadJsonModule,
    /// Installing a module into the context.
    InstallModule,
    /// Making the runtime from the context.
    CreateRuntime,
    /// Listing the script directory.
    ReadDirectory,
    /// Reading and adding the script at this path.
    InsertSource(String),
    /// Compiling the scripts.
    Prepare,
    /// Writing out the diagnostics of a compilation that failed.
    EmitDiagnostics,
    /// Finding out which functions the scripts of these games expose.
    InspectScripts(Vec<String>),
    /// Listing the games that the stored cards refer to.
    ListGames,
}

/// What a [`LoadStep`] holds.
pub enum LoadStepView {
    CreateContext,
    LoadJsonModule,
    InstallModule,
    CreateRuntime,
    ReadDirectory,
    InsertSource(Seq<char>),
    Prepare,
    EmitDiagnostics,
    InspectScripts(Seq<Seq<char>>),
    ListGames,
}

impl View for LoadStep {
    type V = LoadStepView;

    open spec fn view(&self) -> LoadStepView {
        match self {
            LoadStep::CreateContext => LoadStepView::CreateContext,
            LoadStep::LoadJsonModule => LoadStepView::LoadJsonModule,
            LoadStep::InstallModule => LoadStepView::InstallModule,
            LoadStep::CreateRuntime => LoadStepView::CreateRuntime,
            LoadStep::ReadDirectory => LoadStepView::ReadDirectory,
            LoadStep::InsertSource(path) => LoadStepView::InsertSource(path@),
            LoadStep::Prepare => LoadStepView::Prepare,
            LoadStep::EmitDiagnostics => LoadStepView::EmitDiagnostics,
            LoadStep::InspectScripts(games) => LoadStepView::InspectScripts(strings_view(games@)),
            LoadStep::ListGames => LoadStepView::ListGames,
        }
    }
}

impl LoadStepView {
    /// What is said of a failure of the step. For a script, it names the
    /// file.
    pub open spec fn complaint(self) -> Seq<char> {
        match self {
            LoadStepView::CreateContext => "Failed to create context"@,
            LoadStepView::LoadJsonModule => "Failed to load json module"@,
            LoadStepView::InstallModule => "Failed to install context"@,
            LoadStepView::CreateRuntime => "Failed to create runtime"@,
            LoadStepView::ReadDirectory => "Script directory doesn't exist"@,
            LoadStepView::InsertSource(path) => "Failed to insert source at "@ + path,
            LoadStepView::Prepare => "Failed to prepare rune"@,
            LoadStepView::EmitDiagnostics => "Failed to write the diagnostics"@,
            LoadStepView::InspectScripts(_) => "Failed to inspect the scripts"@,
            LoadStepView::ListGames => "Failed to list the games of the store"@,
        }
    }

    /// The failure of the step for the reason `cause`: a script-load
    /// failure whose detail is the step's complaint, a colon and a space,
    /// and the cause.
    pub open spec fn failure(self, cause: Seq<char>) -> PipelineErrorView {
        PipelineErrorView { kind: ErrorKind::ScriptLoad, detail: self.complaint() + ": "@ + cause }
    }
}

impl LoadStep {
    /// The failure of the step for the reason `cause`. It is fatal: no
    /// lookup is served with a set of scripts that did not load whole.
    pub fn failed(&self, cause: &str) -> (error: PipelineError)
        ensures
            error@ == self@.failure(cause@),
            error@.kind.fatal(),
    {
        let mut detail = match self {
            LoadStep::CreateContext => String::from_str("Failed to create context"),
            LoadStep::LoadJsonModule => String::from_str("Failed to load json module"),
            LoadStep::InstallModule => String::from_str("Failed to install context"),
            LoadStep::CreateRuntime => String::from_str("Failed to create runtime"),
            LoadStep::ReadDirectory => String::from_str("Script directory doesn't exist"),
            LoadStep::InsertSource(path) => {
                let mut text = String::from_str("Failed to insert source at ");
                text.append(path.as_str());
                text
            },
            LoadStep::Prepare => String::from_str("Failed to prepare rune"),
            LoadStep::EmitDiagnostics => String::from_str("Failed to write the diagnostics"),
            LoadStep::InspectScripts(_) => String::from_str("Failed to inspect the scripts"),
            LoadStep::ListGames => String::from_str("Failed to list the games of the store"),
        };
        detail.append(": ");
        detail.append(cause);
        PipelineError { kind: ErrorKind::ScriptLoad, detail }
    }
}

/// One loaded script: the game it renders, and the functions it exposes.
#[derive(Clone, Debug, PartialEq, Eq)]
pub struct RenderScript {
    pub game: String,
    pub functions: Vec<String>,
}

/// What a [`RenderScript`] holds.
pub struct RenderScriptView {
    pub game: Seq<char>,
    pub functions: Seq<Seq<char>>,
}

impl View for RenderScript {
    type V = RenderScriptView;

    open spec fn view(&self) -> RenderScriptView {
        RenderScriptView { game: self.game@, functions: strings_view(self.functions@) }
    }
}

/// The scripts that were loaded.
#[derive(Clone, Debug, PartialEq, Eq)]
pub struct ScriptSet {
    pub scripts: Vec<RenderScript>,
}

impl View for ScriptSet {
    type V = Seq<RenderScriptView>;

    open spec fn view(&self) -> Seq<RenderScriptView> {
        Seq::new(self.scripts@.len(), |i: int| self.scripts@[i]@)
    }
}

/// Whether `script` renders `game`: it is the game's script and exposes the
/// function `embed`.
pub open spec fn is_renderer(script: RenderScriptView, game: Seq<char>) -> bool {
    script.game == game && script.functions.contains(embed_name())
}

/// Whether some script of the set renders `game`.
pub open spec fn has_renderer(scripts: Seq<RenderScriptView>, game: Seq<char>) -> bool {
    exists|i: int| 0 <= i < scripts.len() && is_renderer(#[trigger] scripts[i], game)
}

/// The first of `games` that no script of the set renders, if there is one.
pub open spec fn first_unrendered(scripts: Seq<RenderScriptView>, games: Seq<Seq<char>>) -> Option<
    Seq<char>,
>
    decreases games.len(),
{
    if games.len() == 0 {
        None
    } else if !has_renderer(scripts, games[0]) {
        Some(games[0])
    } else {
        first_unrendered(scripts, games.drop_first())
    }
}

/// There is no first unrendered game exactly when every game is rendered;
/// and where there is one, it is one of the games, it is not rendered, and
/// every game before it is.
pub proof fn first_unrendered_is_first(scripts: Seq<RenderScriptView>, games: Seq<Seq<char>>)
    ensures
        first_unrendered(scripts, games) is None <==> forall|j: int|
            0 <= j < games.len() ==> has_renderer(scripts, #[trigger] games[j]),
        first_unrendered(scripts, games) matches Some(game) ==> exists|i: int|
            {
                &&& 0 <= i < games.len()
                &&& #[trigger] games[i] == game
                &&& !has_renderer(scripts, game)
                &&& forall|j: int| 0 <= j < i ==> has_renderer(scripts, #[trigger] games[j])
            },
    decreases games.len(),
{
    if games.len() > 0 && has_renderer(scripts, games[0]) {
        let rest = games.drop_first();
        first_unrendered_is_first(scripts, rest);
        assert(forall|j: int| 0 < j < games.len() ==> games[j] == rest[j - 1]);
        if first_unrendered(scripts, rest) is Some {
            let game = first_unrendered(scripts, rest)->0;
            let i = choose|i: int|
                {
                    &&& 0 <= i < rest.len()
                    &&& #[trigger] rest[i] == game
                    &&& !has_renderer(scripts, game)
                    &&& forall|j: int| 0 <= j < i ==> has_renderer(scripts, #[trigger] rest[j])
                };
            assert(games[i + 1] == game);
        }
    } else if games.len() > 0 {
        assert(games[0] == games[0]);
    }
}

/// The detail of the failure for a game that no script renders.
pub open spec fn unrendered_text(game: Seq<char>) -> Seq<char> {
    "no script renders the game "@ + game
}

/// What the check of a set of scripts against the games of a store comes to:
/// nothing to object to, or the failure that names the first game that no
/// script renders.
pub open spec fn validated(scripts: Seq<RenderScriptView>, games: Seq<Seq<char>>) -> Result<
    (),
    PipelineErrorView,
> {
    match first_unrendered(scripts, games) {
        None => Ok(()),
        Some(game) => Err(
            PipelineErrorView { kind: ErrorKind::ScriptLoad, detail: unrendered_text(game) },
        ),
    }
}

/// The view of a check's result.
pub open spec fn checked_view(result: Result<(), PipelineError>) -> Result<(), PipelineErrorView> {
    match result {
        Ok(()) => Ok(()),
        Err(error) => Err(error@),
    }
}

impl RenderScript {
    /// Whether the script exposes a function named `function`.
    pub fn exposes(&self, function: &str) -> (r: bool)
        ensures
            r == self@.functions.contains(function@),
    {
        let mut f: usize = 0;
        while f < self.functions.len()
            invariant
                f <= self.functions.len(),
                forall|k: int| 0 <= k < f ==> self@.functions[k] != function@,
            decreases self.functions.len() - f,
        {
            if same_text(self.functions[f].as_str(), function) {
                assert(self@.functions[f as int] == function@);
                return true;
            }
            f += 1;
        }
        false
    }
}

impl ScriptSet {
    /// Whether some script of the set renders `game`.
    pub fn renders(&self, game: &str) -> (r: bool)
        ensures
            r == has_renderer(self@, game@),
    {
        let mut i: usize = 0;
        while i < self.scripts.len()
            invariant
                i <= self.scripts.len(),
                forall|k: int| 0 <= k < i ==> !is_renderer(#[trigger] self@[k], game@),
            decreases self.scripts.len() - i,
        {
            let script = &self.scripts[i];
            assert(self@[i as int] == script@);
            if same_text(script.game.as_str(), game) && script.exposes("embed") {
                return true;
            }
            i += 1;
        }
        false
    }

    /// Checks that the set may serve a store that refers to `games`: every
    /// one of them must have a script that renders it. The failure names
    /// the first game that has none, and is fatal.
    pub fn validate(&self, games: &Vec<String>) -> (r: Result<(), PipelineError>)
        ensures
            checked_view(r) == validated(self@, strings_view(games@)),
    {
        let mut i: usize = 0;
        let ghost all = strings_view(games@);
        assert(all.skip(0) =~= all);
        while i < games.len()
            invariant
                i <= games.len(),
                all == strings_view(games@),
                first_unrendered(self@, all) == first_unrendered(self@, all.skip(i as int)),
            decreases games.len() - i,
        {
            assert(all.skip(i as int)[0] == games@[i as int]@);
            if !self.renders(games[i].as_str()) {
                let mut detail = String::from_str("no script renders the game ");
                detail.append(games[i].as_str());
                return Err(PipelineError { kind: ErrorKind::ScriptLoad, detail });
            }
            assert(all.skip(i as int).drop_first() =~= all.skip(i as int + 1));
            i += 1;
        }
        Ok(())
    }
}

} // verus!
