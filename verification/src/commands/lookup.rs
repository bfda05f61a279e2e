//! One lookup, from query to delivery, as a sequence of decisions.
//!
//! A lookup waits on the store, on the user and on a script. None of that
//! waiting happens here: [`lookup`] starts a [`Run`], which says what is to
//! be done next ([`Action`]); the caller does it and hands back what came of
//! it ([`Event`]), and the run decides again, until nothing is left to do.
//! [`lookup_inline`] finds the query in a message that asks for a lookup.

use vstd::prelude::*;
use vstd::string::*;
use crate::document::{RenderDocument, RenderDocumentView};
use crate::error::{ErrorKind, PipelineError, PipelineErrorView};
use crate::record::{records_view, titles_of, CardRecord, CardRecordView};
use crate::resolver::{
    classify, classify_candidates, contains_text, copy_strings, distinct,
    missing_iff_no_title_matches, one_title_resolves_to_its_first_row, prefix_pattern,
    prefix_pattern_of, several_titles_are_each_offered_once, strings_view, Resolution,
    ResolutionView, CANDIDATE_LIMIT,
};
use crate::scripting::value::{ScriptObject, ScriptValueView};
use crate::scripting::{convert, try_from_rune_object_to_embed, RenderRequest, RenderRequestView};
use crate::store::{find_by_prefix, find_exact, is_first_titled};
use crate::text::{chars_of, is_prefix, trim_bounds, trimmed};

verus! {

/// How long a choice stays open, in seconds.
pub const SELECTION_WAIT_SECONDS: u64 = 180;

/// The text above the options of a choice.
pub open spec fn prompt_text() -> Seq<char> {
    "Please select the card you're looking for"@
}

/// The text that replaces a choice that nobody answered in time.
pub open spec fn timeout_text() -> Seq<char> {
    "Timed out"@
}

/// The notice for a query that found nothing: the query as it was given,
/// followed by ` not found`.
pub open spec fn not_found_text(query: Seq<char>) -> Seq<char> {
    query + " not found"@
}

/// The detail of the failure when the store has no row with a title that it
/// listed a moment before.
pub open spec fn vanished_text(title: Seq<char>) -> Seq<char> {
    "no record is titled "@ + title
}

/// The detail of the failure when a selection names no option of the choice.
pub open spec fn stray_selection_text(label: Seq<char>) -> Seq<char> {
    "no option is labelled "@ + label
}

/// How a lookup ended.
#[derive(Clone, Copy, Debug, PartialEq, Eq, Structural)]
pub enum Ending {
    /// The document was delivered.
    Delivered,
    /// Nothing is titled so, and the user was told.
    NotFound,
    /// The choice was not made: the wait ran out, or the transport failed.
    Cancelled(ErrorKind),
    /// A failure of this kind ended the lookup; it was reported.
    Failed(ErrorKind),
}

/// Where a lookup stands: what it is waiting for.
#[derive(Clone, Debug, PartialEq, Eq)]
pub enum Phase {
    /// The candidates of the prefix query.
    Searching,
    /// The user's selection among `options`.
    Choosing { options: Vec<String> },
    /// The withdrawal of the choice, `title` having been selected.
    Withdrawing { title: String },
    /// The first row titled `title`.
    Fetching { title: String },
    /// What the game's script returns for `record`.
    Rendering { record: CardRecord },
    /// The delivery of the document.
    Delivering,
    /// The delivery of the notice that nothing was found.
    Notifying,
    /// Nothing: the lookup is over.
    Finished(Ending),
}

/// What a [`Phase`] holds.
pub enum PhaseView {
    Searching,
    Choosing { options: Seq<Seq<char>> },
    Withdrawing { title: Seq<char> },
    Fetching { title: Seq<char> },
    Rendering { record: CardRecordView },
    Delivering,
    Notifying,
    Finished(Ending),
}

impl View for Phase {
    type V = PhaseView;

    open spec fn view(&self) -> PhaseView {
        match self {
            Phase::Searching => PhaseView::Searching,
            Phase::Choosing { options } => PhaseView::Choosing { options: strings_view(options@) },
            Phase::Withdrawing { title } => PhaseView::Withdrawing { title: title@ },
            Phase::Fetching { title } => PhaseView::Fetching { title: title@ },
            Phase::Rendering { record } => PhaseView::Rendering { record: record@ },
            Phase::Delivering => PhaseView::Delivering,
            Phase::Notifying => PhaseView::Notifying,
            Phase::Finished(ending) => PhaseView::Finished(*ending),
        }
    }
}

/// What came of the last action.
#[derive(Debug, PartialEq, Eq)]
pub enum Event {
    /// The store answered the prefix query with these rows, in its order.
    Candidates(Vec<CardRecord>),
    /// The store answered the exact query with this row, or has none.
    Record(Option<CardRecord>),
    /// The store failed.
    StoreFailed(String),
    /// The user selected the option with this label.
    Selected(String),
    /// The wait for a selection ran out.
    TimedOut,
    /// The transport failed.
    TransportFailed(String),
    /// The script returned this mapping.
    ScriptReturned(ScriptObject),
    /// The script could not be called or failed.
    ScriptFailed(String),
    /// The transport did what was asked.
    Sent,
}

/// What an [`Event`] holds.
pub enum EventView {
    Candidates(Seq<CardRecordView>),
    Record(Option<CardRecordView>),
    StoreFailed(Seq<char>),
    Selected(Seq<char>),
    TimedOut,
    TransportFailed(Seq<char>),
    ScriptReturned(Seq<(Seq<char>, ScriptValueView)>),
    ScriptFailed(Seq<char>),
    Sent,
}

impl View for Event {
    type V = EventView;

    open spec fn view(&self) -> EventView {
        match self {
            Event::Candidates(rows) => EventView::Candidates(records_view(rows@)),
            Event::Record(row) => EventView::Record(
                match row {
                    Some(r) => Some(r@),
                    None => None,
                },
            ),
            Event::StoreFailed(detail) => EventView::StoreFailed(detail@),
            Event::Selected(label) => EventView::Selected(label@),
            Event::TimedOut => EventView::TimedOut,
            Event::TransportFailed(detail) => EventView::TransportFailed(detail@),
            Event::ScriptReturned(object) => EventView::ScriptReturned(object@),
            Event::ScriptFailed(detail) => EventView::ScriptFailed(detail@),
            Event::Sent => EventView::Sent,
        }
    }
}

/// What is to be done next.
#[derive(Clone, Debug, PartialEq, Eq)]
pub enum Action {
    /// Ask the store for the first `limit` rows whose title matches `pattern`.
    FindByPrefix { pattern: String, limit: usize },
    /// Ask the store for the first row titled `title`.
    FindExact { title: String },
    /// Present `options` under `prompt` and wait up to `wait_seconds` for a
    /// selection.
    PresentChoices { prompt: String, options: Vec<String>, wait_seconds: u64 },
    /// Withdraw the choice.
    WithdrawPrompt,
    /// Replace the choice with `text`.
    ReplacePrompt { text: String },
    /// Send `text` to the user.
    SendNotice { text: String },
    /// Call the game's script, apart from the caller's other work.
    Invoke(RenderRequest),
    /// Send the document to the user.
    SendDocument(RenderDocument),
    /// Report the failure.
    Report(PipelineError),
    /// Nothing.
    Nothing,
}

/// What an [`Action`] holds.
pub enum ActionView {
    FindByPrefix { pattern: Seq<char>, limit: nat },
    FindExact { title: Seq<char> },
    PresentChoices { prompt: Seq<char>, options: Seq<Seq<char>>, wait_seconds: nat },
    WithdrawPrompt,
    ReplacePrompt { text: Seq<char> },
    SendNotice { text: Seq<char> },
    Invoke(RenderRequestView),
    SendDocument(RenderDocumentView),
    Report(PipelineErrorView),
    Nothing,
}

impl View for Action {
    type V = ActionView;

    open spec fn view(&self) -> ActionView {
        match self {
            Action::FindByPrefix { pattern, limit } => ActionView::FindByPrefix {
                pattern: pattern@,
                limit: *limit as nat,
            },
            Action::FindExact { title } => ActionView::FindExact { title: title@ },
            Action::PresentChoices { prompt, options, wait_seconds } => ActionView::PresentChoices {
                prompt: prompt@,
                options: strings_view(options@),
                wait_seconds: *wait_seconds as nat,
            },
            Action::WithdrawPrompt => ActionView::WithdrawPrompt,
            Action::ReplacePrompt { text } => ActionView::ReplacePrompt { text: text@ },
            Action::SendNotice { text } => ActionView::SendNotice { text: text@ },
            Action::Invoke(request) => ActionView::Invoke(request@),
            Action::SendDocument(document) => ActionView::SendDocument(document@),
            Action::Report(error) => ActionView::Report(error@),
            Action::Nothing => ActionView::Nothing,
        }
    }
}

/// One lookup: the query as it was given, and where the lookup stands.
#[derive(Clone, Debug, PartialEq, Eq)]
pub struct Run {
    pub query: String,
    pub phase: Phase,
}

/// What a [`Run`] holds.
pub struct RunView {
    pub query: Seq<char>,
    pub phase: PhaseView,
}

impl View for Run {
    type V = RunView;

    open spec fn view(&self) -> RunView {
        RunView { query: self.query@, phase: self.phase@ }
    }
}

/// A lookup that has ended so, and the action that goes with the ending.
pub open spec fn finish(run: RunView, ending: Ending, action: ActionView) -> (RunView, ActionView) {
    (RunView { query: run.query, phase: PhaseView::Finished(ending) }, action)
}

/// A lookup that goes on in `phase`, and the action that leads there.
pub open spec fn proceed(run: RunView, phase: PhaseView, action: ActionView) -> (
    RunView,
    ActionView,
) {
    (RunView { query: run.query, phase }, action)
}

/// The report of a failure of `kind` with `detail`.
pub open spec fn report(kind: ErrorKind, detail: Seq<char>) -> ActionView {
    ActionView::Report(PipelineErrorView { kind, detail })
}

/// A lookup that a failure of `kind` has ended, and the report of the
/// failure.
pub open spec fn fail(run: RunView, kind: ErrorKind, detail: Seq<char>) -> (RunView, ActionView) {
    finish(run, Ending::Failed(kind), report(kind, detail))
}

/// A lookup whose choice a failure of the transport has cancelled, and the
/// report of the failure.
pub open spec fn cancel(run: RunView, detail: Seq<char>) -> (RunView, ActionView) {
    finish(
        run,
        Ending::Cancelled(ErrorKind::DisambiguationTransport),
        report(ErrorKind::DisambiguationTransport, detail),
    )
}

/// The start of a lookup for `query`: it waits for the candidates of the
/// prefix query that it asks for.
pub open spec fn start_of(query: Seq<char>) -> (RunView, ActionView) {
    (
        RunView { query, phase: PhaseView::Searching },
        ActionView::FindByPrefix {
            pattern: prefix_pattern_of(query),
            limit: CANDIDATE_LIMIT as nat,
        },
    )
}

/// Resolution has named `record`: its game's script is called on it.
pub open spec fn render(run: RunView, record: CardRecordView) -> (RunView, ActionView) {
    proceed(
        run,
        PhaseView::Rendering { record },
        ActionView::Invoke(RenderRequestView::for_record(record)),
    )
}

/// What a lookup does when `event` arrives: where it stands then, and what
/// is to be done next.
///
/// An event that the phase does not wait for changes nothing and asks for
/// nothing. A lookup that is over stays over.
pub open spec fn step_of(run: RunView, event: EventView) -> (RunView, ActionView) {
    match (run.phase, event) {
        (PhaseView::Searching, EventView::Candidates(rows)) => match classify_candidates(rows) {
            ResolutionView::Missing => proceed(
                run,
                PhaseView::Notifying,
                ActionView::SendNotice { text: not_found_text(run.query) },
            ),
            ResolutionView::Unique(record) => render(run, record),
            ResolutionView::SameTitle(title) => proceed(
                run,
                PhaseView::Fetching { title },
                ActionView::FindExact { title },
            ),
            ResolutionView::Ambiguous(options) => proceed(
                run,
                PhaseView::Choosing { options },
                ActionView::PresentChoices {
                    prompt: prompt_text(),
                    options,
                    wait_seconds: SELECTION_WAIT_SECONDS as nat,
                },
            ),
        },
        (PhaseView::Searching, EventView::StoreFailed(detail)) => fail(
            run,
            ErrorKind::Store,
            detail,
        ),
        (PhaseView::Choosing { options }, EventView::Selected(label)) => if options.contains(
            label,
        ) {
            proceed(run, PhaseView::Withdrawing { title: label }, ActionView::WithdrawPrompt)
        } else {
            cancel(run, stray_selection_text(label))
        },
        (PhaseView::Choosing { options }, EventView::TimedOut) => finish(
            run,
            Ending::Cancelled(ErrorKind::DisambiguationTimeout),
            ActionView::ReplacePrompt { text: timeout_text() },
        ),
        (PhaseView::Choosing { options }, EventView::TransportFailed(detail)) => cancel(
            run,
            detail,
        ),
        (PhaseView::Withdrawing { title }, EventView::Sent) => proceed(
            run,
            PhaseView::Fetching { title },
            ActionView::FindExact { title },
        ),
        (PhaseView::Withdrawing { title }, EventView::TransportFailed(detail)) => cancel(
            run,
            detail,
        ),
        (PhaseView::Fetching { title }, EventView::Record(Some(record))) => render(run, record),
        (PhaseView::Fetching { title }, EventView::Record(None)) => fail(
            run,
            ErrorKind::Store,
            vanished_text(title),
        ),
        (PhaseView::Fetching { title }, EventView::StoreFailed(detail)) => fail(
            run,
            ErrorKind::Store,
            detail,
        ),
        (PhaseView::Rendering { record }, EventView::ScriptReturned(object)) => match convert(
            object,
        ) {
            Ok(document) => proceed(
                run,
                PhaseView::Delivering,
                ActionView::SendDocument(document),
            ),
            Err(error) => fail(run, ErrorKind::Conversion, error.message_of()),
        },
        (PhaseView::Rendering { record }, EventView::ScriptFailed(detail)) => fail(
            run,
            ErrorKind::ScriptRuntime,
            detail,
        ),
        (PhaseView::Delivering, EventView::Sent) => finish(
            run,
            Ending::Delivered,
            ActionView::Nothing,
        ),
        (PhaseView::Delivering, EventView::TransportFailed(detail)) => fail(
            run,
            ErrorKind::Delivery,
            detail,
        ),
        (PhaseView::Notifying, EventView::Sent) => finish(
            run,
            Ending::NotFound,
            ActionView::Nothing,
        ),
        (PhaseView::Notifying, EventView::TransportFailed(detail)) => fail(
            run,
            ErrorKind::Delivery,
            detail,
        ),
        _ => (run, ActionView::Nothing),
    }
}

/// Ends the lookup for `query` with a failure of `kind`, and reports it.
fn fail_with(query: String, kind: ErrorKind, detail: String) -> (next: (Run, Action))
    ensures
        (next.0@, next.1@) == fail(
            RunView { query: query@, phase: PhaseView::Searching },
            kind,
            detail@,
        ),
{
    (
        Run { query, phase: Phase::Finished(Ending::Failed(kind)) },
        Action::Report(PipelineError { kind, detail }),
    )
}

/// Cancels the choice of the lookup for `query` for a failure of the
/// transport, and reports it.
fn cancel_with(query: String, detail: String) -> (next: (Run, Action))
    ensures
        (next.0@, next.1@) == cancel(
            RunView { query: query@, phase: PhaseView::Searching },
            detail@,
        ),
{
    (
        Run {
            query,
            phase: Phase::Finished(Ending::Cancelled(ErrorKind::DisambiguationTransport)),
        },
        Action::Report(PipelineError { kind: ErrorKind::DisambiguationTransport, detail }),
    )
}

/// Hands `record` to its game's script.
fn render_record(query: String, record: CardRecord) -> (next: (Run, Action))
    ensures
        (next.0@, next.1@) == render(
            RunView { query: query@, phase: next.0@.phase },
            record@,
        ),
        next.0@.query == query@,
{
    let request = RenderRequest::for_record(&record);
    (Run { query, phase: Phase::Rendering { record } }, Action::Invoke(request))
}

/// Starts a lookup for `title`: the first thing to do is to ask the store
/// for the titles that begin with it.
pub fn lookup(title: String) -> (next: (Run, Action))
    ensures
        (next.0@, next.1@) == start_of(title@),
{
    let pattern = prefix_pattern(title.as_str());
    (
        Run { query: title, phase: Phase::Searching },
        Action::FindByPrefix { pattern, limit: CANDIDATE_LIMIT },
    )
}

impl Run {
    /// Whether the lookup is over.
    pub fn is_finished(&self) -> (r: bool)
        ensures
            r == (self@.phase is Finished),
    {
        match &self.phase {
            Phase::Finished(_) => true,
            _ => false,
        }
    }

    /// How the lookup ended, once it is over.
    pub fn ending(&self) -> (r: Option<Ending>)
        ensures
            r == (match self@.phase {
                PhaseView::Finished(ending) => Some(ending),
                _ => None,
            }),
    {
        match &self.phase {
            Phase::Finished(ending) => Some(*ending),
            _ => None,
        }
    }

    /// Takes what came of the last action and decides what is to be done
    /// next.
    pub fn step(self, event: Event) -> (next: (Run, Action))
        ensures
            (next.0@, next.1@) == step_of(self@, event@),
    {
        let Run { query, phase } = self;
        match phase {
            Phase::Searching => match event {
                Event::Candidates(rows) => match classify(rows) {
                    Resolution::Missing => {
                        let mut text = query.clone();
                        text.append(" not found");
                        (Run { query, phase: Phase::Notifying }, Action::SendNotice { text })
                    },
                    Resolution::Unique(record) => render_record(query, record),
                    Resolution::SameTitle(title) => {
                        let wanted = title.clone();
                        (
                            Run { query, phase: Phase::Fetching { title } },
                            Action::FindExact { title: wanted },
                        )
                    },
                    Resolution::Ambiguous(options) => {
                        let offered = copy_strings(&options);
                        (
                            Run { query, phase: Phase::Choosing { options } },
                            Action::PresentChoices {
                                prompt: String::from_str(
                                    "Please select the card you're looking for",
                                ),
                                options: offered,
                                wait_seconds: SELECTION_WAIT_SECONDS,
                            },
                        )
                    },
                },
                Event::StoreFailed(detail) => fail_with(query, ErrorKind::Store, detail),
                _ => (Run { query, phase: Phase::Searching }, Action::Nothing),
            },
            Phase::Choosing { options } => match event {
                Event::Selected(label) => {
                    if contains_text(&options, &label) {
                        (
                            Run { query, phase: Phase::Withdrawing { title: label } },
                            Action::WithdrawPrompt,
                        )
                    } else {
                        let mut detail = String::from_str("no option is labelled ");
                        detail.append(label.as_str());
                        cancel_with(query, detail)
                    }
                },
                Event::TimedOut => (
                    Run {
                        query,
                        phase: Phase::Finished(Ending::Cancelled(ErrorKind::DisambiguationTimeout)),
                    },
                    Action::ReplacePrompt { text: String::from_str("Timed out") },
                ),
                Event::TransportFailed(detail) => cancel_with(query, detail),
                _ => (Run { query, phase: Phase::Choosing { options } }, Action::Nothing),
            },
            Phase::Withdrawing { title } => match event {
                Event::Sent => {
                    let wanted = title.clone();
                    (
                        Run { query, phase: Phase::Fetching { title } },
                        Action::FindExact { title: wanted },
                    )
                },
                Event::TransportFailed(detail) => cancel_with(query, detail),
                _ => (Run { query, phase: Phase::Withdrawing { title } }, Action::Nothing),
            },
            Phase::Fetching { title } => match event {
                Event::Record(Some(record)) => render_record(query, record),
                Event::Record(None) => {
                    let mut detail = String::from_str("no record is titled ");
                    detail.append(title.as_str());
                    fail_with(query, ErrorKind::Store, detail)
                },
                Event::StoreFailed(detail) => fail_with(query, ErrorKind::Store, detail),
                _ => (Run { query, phase: Phase::Fetching { title } }, Action::Nothing),
            },
            Phase::Rendering { record } => match event {
                Event::ScriptReturned(object) => match try_from_rune_object_to_embed(&object) {
                    Ok(document) => (
                        Run { query, phase: Phase::Delivering },
                        Action::SendDocument(document),
                    ),
                    Err(error) => fail_with(query, ErrorKind::Conversion, error.message()),
                },
                Event::ScriptFailed(detail) => fail_with(query, ErrorKind::ScriptRuntime, detail),
                _ => (Run { query, phase: Phase::Rendering { record } }, Action::Nothing),
            },
            Phase::Delivering => match event {
                Event::Sent => (
                    Run { query, phase: Phase::Finished(Ending::Delivered) },
                    Action::Nothing,
                ),
                Event::TransportFailed(detail) => fail_with(query, ErrorKind::Delivery, detail),
                _ => (Run { query, phase: Phase::Delivering }, Action::Nothing),
            },
            Phase::Notifying => match event {
                Event::Sent => (
                    Run { query, phase: Phase::Finished(Ending::NotFound) },
                    Action::Nothing,
                ),
                Event::TransportFailed(detail) => fail_with(query, ErrorKind::Delivery, detail),
                _ => (Run { query, phase: Phase::Notifying }, Action::Nothing),
            },
            Phase::Finished(ending) => (
                Run { query, phase: Phase::Finished(ending) },
                Action::Nothing,
            ),
        }
    }
}

/// What resolution came to.
#[derive(Clone, Debug, PartialEq, Eq)]
pub enum Outcome {
    /// This record is the one that was asked for.
    Found(CardRecord),
    /// Nothing is titled so.
    NotFound,
    /// The choice among several titles was not made.
    Cancelled,
}

/// What an [`Outcome`] holds.
pub enum OutcomeView {
    Found(CardRecordView),
    NotFound,
    Cancelled,
}

impl View for Outcome {
    type V = OutcomeView;

    open spec fn view(&self) -> OutcomeView {
        match self {
            Outcome::Found(record) => OutcomeView::Found(record@),
            Outcome::NotFound => OutcomeView::NotFound,
            Outcome::Cancelled => OutcomeView::Cancelled,
        }
    }
}

/// What resolution came to, read from the phase that follows it: a record
/// that is being rendered was found, a notice that is being sent says that
/// nothing was, and a cancelled lookup was cancelled. Before resolution has
/// ended, and once its result has been passed on, there is none.
pub open spec fn outcome_of(phase: PhaseView) -> Option<OutcomeView> {
    match phase {
        PhaseView::Rendering { record } => Some(OutcomeView::Found(record)),
        PhaseView::Notifying => Some(OutcomeView::NotFound),
        PhaseView::Finished(Ending::Cancelled(_)) => Some(OutcomeView::Cancelled),
        _ => None,
    }
}

/// The view of an optional outcome.
pub open spec fn outcome_view(outcome: Option<Outcome>) -> Option<OutcomeView> {
    match outcome {
        Some(o) => Some(o@),
        None => None,
    }
}

impl Run {
    /// What resolution came to, in the phase that follows it.
    pub fn outcome(&self) -> (r: Option<Outcome>)
        ensures
            outcome_view(r) == outcome_of(self@.phase),
    {
        match &self.phase {
            Phase::Rendering { record } => Some(Outcome::Found(record.clone())),
            Phase::Notifying => Some(Outcome::NotFound),
            Phase::Finished(Ending::Cancelled(_)) => Some(Outcome::Cancelled),
            _ => None,
        }
    }
}

/// The actions that a lookup asks for as `events` arrive one after another.
pub open spec fn actions_of(run: RunView, events: Seq<EventView>) -> Seq<ActionView>
    decreases events.len(),
{
    if events.len() == 0 {
        Seq::empty()
    } else {
        seq![step_of(run, events[0]).1] + actions_of(
            step_of(run, events[0]).0,
            events.drop_first(),
        )
    }
}

/// A lookup that is over asks for nothing, whatever arrives.
pub proof fn finished_run_asks_for_nothing(run: RunView, events: Seq<EventView>)
    requires
        run.phase is Finished,
    ensures
        actions_of(run, events).len() == events.len(),
        forall|k: int| 0 <= k < events.len() ==> actions_of(run, events)[k] == ActionView::Nothing,
    decreases events.len(),
{
    if events.len() > 0 {
        finished_run_asks_for_nothing(run, events.drop_first());
    }
}

/// A query that no stored title begins with ends as not found: the
/// candidates that the store returns make the lookup send the notice, which
/// begins with the query as it was given and goes on with ` not found`, and
/// once the notice is sent the lookup is over.
pub proof fn unmatched_query_ends_not_found(store: Seq<CardRecordView>, query: Seq<char>)
    requires
        forall|i: int| 0 <= i < store.len() ==> !is_prefix(query, #[trigger] store[i].title),
    ensures
        ({
            let candidates = find_by_prefix(store, query, CANDIDATE_LIMIT as nat);
            let told = step_of(start_of(query).0, EventView::Candidates(candidates));
            &&& outcome_of(told.0.phase) == Some(OutcomeView::NotFound)
            &&& told.1 == (ActionView::SendNotice { text: not_found_text(query) })
            &&& is_prefix(query, not_found_text(query))
            &&& step_of(told.0, EventView::Sent) == finish(
                told.0,
                Ending::NotFound,
                ActionView::Nothing,
            )
        }),
{
    missing_iff_no_title_matches(store, query);
    assert(not_found_text(query).subrange(0, query.len() as int) =~= query);
}

/// When every stored title that begins with the query is the same title,
/// on however many rows, the lookup finds the first row of the store with
/// that title: at once where the store returns one candidate, and else
/// through the exact query for the title, which no choice precedes.
pub proof fn one_title_is_found_without_a_choice(
    store: Seq<CardRecordView>,
    query: Seq<char>,
    title: Seq<char>,
)
    requires
        exists|i: int| 0 <= i < store.len() && is_prefix(query, #[trigger] store[i].title),
        forall|i: int|
            0 <= i < store.len() && is_prefix(query, #[trigger] store[i].title) ==> store[i].title
                == title,
    ensures
        ({
            let candidates = find_by_prefix(store, query, CANDIDATE_LIMIT as nat);
            let first = step_of(start_of(query).0, EventView::Candidates(candidates));
            let found = if candidates.len() == 1 {
                first
            } else {
                step_of(first.0, EventView::Record(find_exact(store, title)))
            };
            &&& candidates.len() > 1 ==> first.1 == (ActionView::FindExact { title })
            &&& exists|i: int|
                is_first_titled(store, title, i) && outcome_of(found.0.phase) == Some(
                    OutcomeView::Found(store[i]),
                ) && found.1 == ActionView::Invoke(RenderRequestView::for_record(store[i]))
        }),
{
    one_title_resolves_to_its_first_row(store, query, title);
}

/// When the candidates carry two or more distinct titles, the lookup
/// presents a choice with one option for each distinct title and no option
/// twice. Selecting an option withdraws the choice, asks the store for the
/// first row with that title, and finds that row.
pub proof fn several_titles_lead_to_a_choice(
    store: Seq<CardRecordView>,
    query: Seq<char>,
    label: Seq<char>,
)
    requires
        distinct(titles_of(find_by_prefix(store, query, CANDIDATE_LIMIT as nat))).len() >= 2,
    ensures
        ({
            let candidates = find_by_prefix(store, query, CANDIDATE_LIMIT as nat);
            let options = distinct(titles_of(candidates));
            let asked = step_of(start_of(query).0, EventView::Candidates(candidates));
            let chosen = step_of(asked.0, EventView::Selected(label));
            let withdrawn = step_of(chosen.0, EventView::Sent);
            let found = step_of(withdrawn.0, EventView::Record(find_exact(store, label)));
            &&& asked.0.phase == (PhaseView::Choosing { options })
            &&& asked.1 == (ActionView::PresentChoices {
                prompt: prompt_text(),
                options,
                wait_seconds: SELECTION_WAIT_SECONDS as nat,
            })
            &&& options.no_duplicates()
            &&& forall|t: Seq<char>| options.contains(t) <==> titles_of(candidates).contains(t)
            &&& options.contains(label) ==> {
                &&& chosen.1 == ActionView::WithdrawPrompt
                &&& withdrawn.1 == (ActionView::FindExact { title: label })
                &&& exists|i: int|
                    is_first_titled(store, label, i) && outcome_of(found.0.phase) == Some(
                        OutcomeView::Found(store[i]),
                    )
            }
        }),
{
    several_titles_are_each_offered_once(store, query);
}

/// A choice that gets no selection in time is cancelled: the choice is
/// replaced with the timeout text, the lookup is over, and whatever arrives
/// later, it asks for nothing more, so that no document is delivered.
pub proof fn unanswered_choice_is_cancelled(run: RunView, later: Seq<EventView>)
    requires
        run.phase is Choosing,
    ensures
        ({
            let closed = step_of(run, EventView::TimedOut);
            &&& outcome_of(closed.0.phase) == Some(OutcomeView::Cancelled)
            &&& closed.0.phase == PhaseView::Finished(
                Ending::Cancelled(ErrorKind::DisambiguationTimeout),
            )
            &&& closed.1 == (ActionView::ReplacePrompt { text: timeout_text() })
            &&& forall|k: int|
                0 <= k < later.len() ==> actions_of(closed.0, later)[k] == ActionView::Nothing
        }),
{
    finished_run_asks_for_nothing(step_of(run, EventView::TimedOut).0, later);
}

/// Whether an action hands a record to a script.
pub open spec fn calls_script(action: ActionView) -> bool {
    action is Invoke
}

/// Whether an action is what the user sees of the lookup's end: the
/// document, the notice that nothing was found, or the timeout text.
pub open spec fn shows_result(action: ActionView) -> bool {
    action is SendDocument || action is SendNotice || action is ReplacePrompt
}

/// How many of `actions` are of the kind `wanted`.
pub open spec fn count(actions: Seq<ActionView>, wanted: spec_fn(ActionView) -> bool) -> nat
    decreases actions.len(),
{
    if actions.len() == 0 {
        0
    } else if wanted(actions[0]) {
        1 + count(actions.drop_first(), wanted)
    } else {
        count(actions.drop_first(), wanted)
    }
}

/// Whether a script may still be called from `phase`.
pub open spec fn may_call_script(phase: PhaseView) -> bool {
    phase is Searching || phase is Choosing || phase is Withdrawing || phase is Fetching
}

/// Whether the user may still be shown a result from `phase`.
pub open spec fn may_show_result(phase: PhaseView) -> bool {
    may_call_script(phase) || phase is Rendering
}

/// From any point of a lookup on, at most one record is handed to a script,
/// and none once resolution has ended.
pub proof fn script_is_called_at_most_once(run: RunView, events: Seq<EventView>)
    ensures
        count(actions_of(run, events), |a: ActionView| calls_script(a)) <= 1,
        !may_call_script(run.phase) ==> count(
            actions_of(run, events),
            |a: ActionView| calls_script(a),
        ) == 0,
    decreases events.len(),
{
    if events.len() > 0 {
        let next = step_of(run, events[0]);
        let rest = actions_of(next.0, events.drop_first());
        script_is_called_at_most_once(next.0, events.drop_first());
        assert(actions_of(run, events).drop_first() =~= rest);
    }
}

/// From any point of a lookup on, the user is shown at most one result: a
/// document, or the notice that nothing was found, or the timeout text, or
/// nothing.
pub proof fn result_is_shown_at_most_once(run: RunView, events: Seq<EventView>)
    ensures
        count(actions_of(run, events), |a: ActionView| shows_result(a)) <= 1,
        !may_show_result(run.phase) ==> count(
            actions_of(run, events),
            |a: ActionView| shows_result(a),
        ) == 0,
    decreases events.len(),
{
    if events.len() > 0 {
        let next = step_of(run, events[0]);
        let rest = actions_of(next.0, events.drop_first());
        result_is_shown_at_most_once(next.0, events.drop_first());
        assert(actions_of(run, events).drop_first() =~= rest);
    }
}

/// How far a lookup has come: each phase counts the phases that lie behind
/// it.
pub open spec fn progress(phase: PhaseView) -> nat {
    match phase {
        PhaseView::Searching => 0,
        PhaseView::Choosing { .. } => 1,
        PhaseView::Withdrawing { .. } => 2,
        PhaseView::Fetching { .. } => 3,
        PhaseView::Rendering { .. } => 4,
        PhaseView::Delivering => 5,
        PhaseView::Notifying => 5,
        PhaseView::Finished(_) => 6,
    }
}

/// A lookup never goes back: an event leaves it where it stands, without
/// asking for anything, or takes it to a later phase. So a lookup is over
/// after at most six events that it waited for.
pub proof fn lookup_only_moves_forward(run: RunView, event: EventView)
    ensures
        ({
            let next = step_of(run, event);
            ||| next.0 == run && next.1 == ActionView::Nothing
            ||| progress(next.0.phase) > progress(run.phase)
        }),
        progress(run.phase) <= 6,
        step_of(run, event).0.query == run.query,
{
}

/// Within a lookup, resolution comes before the call of the script, and the
/// call before the delivery: a lookup that has not yet resolved its query
/// sends no document unless it has called the script before.
pub proof fn document_follows_the_call(run: RunView, events: Seq<EventView>, sent: int)
    requires
        may_call_script(run.phase),
        0 <= sent < events.len(),
        actions_of(run, events)[sent] is SendDocument,
    ensures
        exists|called: int| 0 <= called < sent && actions_of(run, events)[called] is Invoke,
    decreases events.len(),
{
    let next = step_of(run, events[0]);
    let rest = events.drop_first();
    let actions = actions_of(run, events);
    let later = actions_of(next.0, rest);
    one_action_for_each_event(next.0, rest);
    assert(actions =~= seq![next.1] + later);
    if sent > 0 {
        assert(actions[sent] == later[sent - 1]);
        if next.1 is Invoke {
            assert(actions[0] is Invoke);
        } else if may_call_script(next.0.phase) {
            document_follows_the_call(next.0, rest, sent - 1);
            let called = choose|called: int| 0 <= called < sent - 1 && later[called] is Invoke;
            assert(actions[called + 1] is Invoke);
        } else {
            result_is_shown_at_most_once(next.0, rest);
            shown_is_counted(later, sent - 1);
        }
    }
}

/// A lookup asks for one action for each event.
pub proof fn one_action_for_each_event(run: RunView, events: Seq<EventView>)
    ensures
        actions_of(run, events).len() == events.len(),
    decreases events.len(),
{
    if events.len() > 0 {
        one_action_for_each_event(step_of(run, events[0]).0, events.drop_first());
    }
}

/// An action that shows a result counts among the results shown.
proof fn shown_is_counted(actions: Seq<ActionView>, at: int)
    requires
        0 <= at < actions.len(),
        shows_result(actions[at]),
    ensures
        count(actions, |a: ActionView| shows_result(a)) >= 1,
    decreases actions.len(),
{
    if at > 0 {
        shown_is_counted(actions.drop_first(), at - 1);
    }
}

/// Whether `[[` stands at position `i` of `text`.
pub open spec fn opens_at(text: Seq<char>, i: int) -> bool {
    0 <= i && i + 1 < text.len() && text[i] == '[' && text[i + 1] == '['
}

/// Whether `]]` stands at position `j` of `text`.
pub open spec fn closes_at(text: Seq<char>, j: int) -> bool {
    0 <= j && j + 1 < text.len() && text[j] == ']' && text[j + 1] == ']'
}

/// Whether a bracketed span opens at `i` and closes at `j`: `[[` at `i`,
/// the first `]]` behind it at `j`, and no line break between the two.
pub open spec fn is_span(text: Seq<char>, i: int, j: int) -> bool {
    &&& opens_at(text, i)
    &&& i + 2 <= j
    &&& closes_at(text, j)
    &&& forall|k: int| i + 2 <= k < j ==> text[k] != '\n' && !closes_at(text, k)
}

/// Whether the span from `i` to `j` is the first of `text`: no span opens
/// before `i`.
pub open spec fn is_first_span(text: Seq<char>, i: int, j: int) -> bool {
    &&& is_span(text, i, j)
    &&& forall|a: int, b: int| 0 <= a < i ==> !is_span(text, a, b)
}

/// The query that a message asks to look up inline, if it asks for one.
///
/// A message asks for a lookup with a bracketed span, `[[title]]`, on one
/// line. Only the first span of a message counts. The query is what stands
/// between the brackets, without the blanks at its ends and in the case in
/// which it was written; it may be empty.
pub fn lookup_inline(content: &str) -> (query: Option<String>)
    ensures
        query is None <==> forall|i: int, j: int| !is_span(content@, i, j),
        query matches Some(q) ==> exists|i: int, j: int|
            is_first_span(content@, i, j) && q@ == trimmed(content@.subrange(i + 2, j)),
{
    let chars = chars_of(content);
    let n = chars.len();
    if n < 2 {
        return None;
    }
    let mut i: usize = 0;
    while i < n - 1
        invariant
            2 <= n == chars.len(),
            chars@ == content@,
            forall|a: int, b: int| 0 <= a < i ==> !is_span(content@, a, b),
        decreases n - i,
    {
        if chars[i] == '[' && chars[i + 1] == '[' {
            let mut j: usize = i + 2;
            while j < n - 1 && chars[j] != '\n' && !(chars[j] == ']' && chars[j + 1] == ']')
                invariant
                    2 <= n == chars.len(),
                    chars@ == content@,
                    i + 2 <= j <= n,
                    forall|k: int| i + 2 <= k < j ==> chars@[k] != '\n' && !closes_at(chars@, k),
                decreases n - j,
            {
                j += 1;
            }
            if j < n - 1 && chars[j] == ']' && chars[j + 1] == ']' {
                assert(is_first_span(content@, i as int, j as int));
                let (from, to) = trim_bounds(&chars, i + 2, j);
                let query = String::from_str(content.substring_char(from, to));
                return Some(query);
            }
            assert(forall|b: int| !is_span(content@, i as int, b));
        }
        i += 1;
    }
    assert(forall|a: int, b: int| !is_span(content@, a, b));
    None
}

} // verus!
