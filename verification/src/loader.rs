//! The decisions of the loader.
//!
//! Loading touches the file system and may end the process, so the caller
//! does those things. What is decided here is which of them comes next: the
//! caller starts with [`LoadState::Unloaded`] and [`LoadEvent::Start`],
//! performs the action that [`Config::load`] answers with, and reports what
//! came of it as the next event, until the action is one that ends the run.

use crate::config::{Config, ConfigError, ConfigView, Reading};
use crate::document::NodeView;
use crate::laws::{
    lemma_accepted_text_is_stated, lemma_missing_field_rejected, lemma_stated_text_is_accepted,
    lemma_zero_guild_rejected, lemma_zero_in_list_rejected, states,
};
use crate::schema::{has_key, lookup, Field, SchemaError};
use crate::yaml::yaml_document;
use vstd::prelude::*;
use vstd::string::*;

verus! {

/// Where the sample file is written.
pub const SAMPLE_PATH: &'static str = "config.yaml.sample";

/// Where the configuration is read from.
pub const CONFIG_PATH: &'static str = "config.yaml";

/// The status with which the process exits when the configuration file
/// cannot be opened.
pub const EXIT_STATUS: i32 = 1;

/// A step of regenerating the sample file.
#[derive(Debug, Clone, Copy, PartialEq, Eq, Structural)]
pub enum SampleStep {
    /// Finding out whether a sample file exists.
    Probe,
    /// Deleting the old sample file.
    Remove,
    /// Creating the new, empty sample file.
    Create,
    /// Writing the default configuration to it.
    Write,
}

/// How far loading has come.
#[derive(Debug, Clone, Copy, PartialEq, Eq, Structural)]
pub enum LoadState {
    /// Nothing has been done.
    Unloaded,
    /// The sample file is being regenerated; the step is the one asked for.
    Sampling(SampleStep),
    /// The configuration file is being opened and read.
    Opening,
    /// The configuration is loaded. Final.
    Loaded,
    /// The process is to exit. Final.
    Terminated,
    /// Loading failed with an error for the caller. Final.
    Failed,
}

/// What the caller reports.
#[derive(Debug, Clone, PartialEq, Eq)]
pub enum LoadEvent {
    /// The configuration is wanted.
    Start,
    /// Whether a sample file exists.
    Probed(bool),
    /// The step asked for on the sample file is done.
    Done,
    /// What was asked for failed; the text is the operating system's.
    Failed(String),
    /// The configuration file could not be opened; the text is the operating
    /// system's.
    Unopened(String),
    /// The configuration file was read; the text is its contents.
    Read(String),
}

/// Why loading failed.
#[derive(Debug, Clone, PartialEq, Eq)]
pub enum LoadError {
    /// A step on the sample file failed.
    Sample(SampleStep, String),
    /// The configuration file was opened, but could not be read.
    Unread(String),
    /// The default configuration could not be written as text, or the
    /// contents of the configuration file are no configuration.
    Config(ConfigError),
}

/// What the caller is to do next.
#[derive(Debug, Clone, PartialEq, Eq)]
pub enum LoadAction {
    /// Find out whether a file exists at [`SAMPLE_PATH`].
    ProbeSample,
    /// Delete the file at [`SAMPLE_PATH`].
    RemoveSample,
    /// Create an empty file at [`SAMPLE_PATH`].
    CreateSample,
    /// Write the text to the file just created.
    WriteSample(String),
    /// Open the file at [`CONFIG_PATH`] and read all of it.
    ReadConfig,
    /// Print the message and exit with the status.
    Exit { message: String, status: i32 },
    /// Hand the error to whoever wanted the configuration.
    Fail(LoadError),
    /// Hand out the configuration.
    Finish(Config),
    /// Nothing: the event was not one that the state waits for.
    Ignore,
}

/// The mathematical value of a [`LoadError`]. The words of the YAML reader
/// and writer are left out: nothing is known of them.
pub enum LoadErrorView {
    Sample(SampleStep, Seq<char>),
    Unread(Seq<char>),
    Syntax,
    Schema(SchemaError),
    Unwritable,
}

/// The mathematical value of a [`LoadAction`].
pub enum LoadActionView {
    ProbeSample,
    RemoveSample,
    CreateSample,
    WriteSample(Seq<char>),
    ReadConfig,
    Exit { message: Seq<char>, status: i32 },
    Fail(LoadErrorView),
    Finish(ConfigView),
    Ignore,
}

impl View for LoadError {
    type V = LoadErrorView;

    open spec fn view(&self) -> LoadErrorView {
        match self {
            LoadError::Sample(step, reason) => LoadErrorView::Sample(*step, reason@),
            LoadError::Unread(reason) => LoadErrorView::Unread(reason@),
            LoadError::Config(ConfigError::Syntax(_)) => LoadErrorView::Syntax,
            LoadError::Config(ConfigError::Schema(e)) => LoadErrorView::Schema(*e),
            LoadError::Config(ConfigError::Unwritable(_)) => LoadErrorView::Unwritable,
        }
    }
}

impl View for LoadAction {
    type V = LoadActionView;

    open spec fn view(&self) -> LoadActionView {
        match self {
            LoadAction::ProbeSample => LoadActionView::ProbeSample,
            LoadAction::RemoveSample => LoadActionView::RemoveSample,
            LoadAction::CreateSample => LoadActionView::CreateSample,
            LoadAction::WriteSample(text) => LoadActionView::WriteSample(text@),
            LoadAction::ReadConfig => LoadActionView::ReadConfig,
            LoadAction::Exit { message, status } => LoadActionView::Exit {
                message: message@,
                status: *status,
            },
            LoadAction::Fail(e) => LoadActionView::Fail(e@),
            LoadAction::Finish(config) => LoadActionView::Finish(config@),
            LoadAction::Ignore => LoadActionView::Ignore,
        }
    }
}

/// What is printed when the configuration file cannot be opened.
pub open spec fn unopened_message(reason: Seq<char>) -> Seq<char> {
    "config.yaml could not be loaded: "@ + reason
}

/// What follows once the sample file has been created: its contents are the
/// text of the default configuration.
pub open spec fn after_create() -> (LoadState, LoadActionView) {
    match ConfigView::defaults().text() {
        Some(text) => (LoadState::Sampling(SampleStep::Write), LoadActionView::WriteSample(text)),
        None => (LoadState::Failed, LoadActionView::Fail(LoadErrorView::Unwritable)),
    }
}

/// What follows once the configuration file has been read.
pub open spec fn after_read(text: Seq<char>) -> (LoadState, LoadActionView) {
    match ConfigView::of_text(text) {
        Reading::Accepted(config) => (LoadState::Loaded, LoadActionView::Finish(config)),
        Reading::Rejected(e) => (
            LoadState::Failed,
            LoadActionView::Fail(LoadErrorView::Schema(e)),
        ),
        Reading::Unreadable => (LoadState::Failed, LoadActionView::Fail(LoadErrorView::Syntax)),
    }
}

/// The loader: for each state and event, the next state and what is to be
/// done.
///
/// The sample file is regenerated first and whatever is there: an old one is
/// removed, a new one created and filled. Any failure on the way is handed
/// to the caller. Then the configuration file is read. If it cannot be
/// opened, the process is told to exit; otherwise its contents are either a
/// configuration or an error for the caller. An event that the state does
/// not wait for changes nothing.
pub open spec fn transition(state: LoadState, event: LoadEvent) -> (LoadState, LoadActionView) {
    match (state, event) {
        (LoadState::Unloaded, LoadEvent::Start) => (
            LoadState::Sampling(SampleStep::Probe),
            LoadActionView::ProbeSample,
        ),
        (LoadState::Sampling(SampleStep::Probe), LoadEvent::Probed(true)) => (
            LoadState::Sampling(SampleStep::Remove),
            LoadActionView::RemoveSample,
        ),
        (LoadState::Sampling(SampleStep::Probe), LoadEvent::Probed(false)) => (
            LoadState::Sampling(SampleStep::Create),
            LoadActionView::CreateSample,
        ),
        (LoadState::Sampling(SampleStep::Remove), LoadEvent::Done) => (
            LoadState::Sampling(SampleStep::Create),
            LoadActionView::CreateSample,
        ),
        (LoadState::Sampling(SampleStep::Create), LoadEvent::Done) => after_create(),
        (LoadState::Sampling(SampleStep::Write), LoadEvent::Done) => (
            LoadState::Opening,
            LoadActionView::ReadConfig,
        ),
        (LoadState::Sampling(step), LoadEvent::Failed(reason)) => (
            LoadState::Failed,
            LoadActionView::Fail(LoadErrorView::Sample(step, reason@)),
        ),
        (LoadState::Opening, LoadEvent::Unopened(reason)) => (
            LoadState::Terminated,
            LoadActionView::Exit { message: unopened_message(reason@), status: EXIT_STATUS },
        ),
        (LoadState::Opening, LoadEvent::Failed(reason)) => (
            LoadState::Failed,
            LoadActionView::Fail(LoadErrorView::Unread(reason@)),
        ),
        (LoadState::Opening, LoadEvent::Read(text)) => after_read(text@),
        _ => (state, LoadActionView::Ignore),
    }
}

impl Config {
    /// The sample file's contents, or the error to fail with.
    fn sample() -> (next: (LoadState, LoadAction))
        ensures
            (next.0, next.1@) == after_create(),
    {
        match Config::default().to_yaml() {
            Ok(text) => (LoadState::Sampling(SampleStep::Write), LoadAction::WriteSample(text)),
            Err(e) => (LoadState::Failed, LoadAction::Fail(LoadError::Config(e))),
        }
    }

    /// The configuration in the contents of the file, or the error to fail
    /// with.
    fn accept(text: &str) -> (next: (LoadState, LoadAction))
        ensures
            (next.0, next.1@) == after_read(text@),
    {
        match Config::from_yaml(text) {
            Ok(config) => (LoadState::Loaded, LoadAction::Finish(config)),
            Err(e) => (LoadState::Failed, LoadAction::Fail(LoadError::Config(e))),
        }
    }

    /// One step of loading: takes the state and what the caller reports, and
    /// gives the next state and what the caller is to do.
    pub fn load(state: LoadState, event: LoadEvent) -> (next: (LoadState, LoadAction))
        ensures
            (next.0, next.1@) == transition(state, event),
    {
        match state {
            LoadState::Unloaded => match event {
                LoadEvent::Start => (
                    LoadState::Sampling(SampleStep::Probe),
                    LoadAction::ProbeSample,
                ),
                _ => (state, LoadAction::Ignore),
            },
            LoadState::Sampling(step) => match event {
                LoadEvent::Failed(reason) => (
                    LoadState::Failed,
                    LoadAction::Fail(LoadError::Sample(step, reason)),
                ),
                LoadEvent::Probed(exists) => match step {
                    SampleStep::Probe => if exists {
                        (LoadState::Sampling(SampleStep::Remove), LoadAction::RemoveSample)
                    } else {
                        (LoadState::Sampling(SampleStep::Create), LoadAction::CreateSample)
                    },
                    _ => (state, LoadAction::Ignore),
                },
                LoadEvent::Done => match step {
                    SampleStep::Probe => (state, LoadAction::Ignore),
                    SampleStep::Remove => (
                        LoadState::Sampling(SampleStep::Create),
                        LoadAction::CreateSample,
                    ),
                    SampleStep::Create => Self::sample(),
                    SampleStep::Write => (LoadState::Opening, LoadAction::ReadConfig),
                },
                _ => (state, LoadAction::Ignore),
            },
            LoadState::Opening => match event {
                LoadEvent::Unopened(reason) => {
                    let mut message = String::from_str("config.yaml could not be loaded: ");
                    message.append(reason.as_str());
                    (LoadState::Terminated, LoadAction::Exit { message, status: EXIT_STATUS })
                },
                LoadEvent::Failed(reason) => (
                    LoadState::Failed,
                    LoadAction::Fail(LoadError::Unread(reason)),
                ),
                LoadEvent::Read(text) => Self::accept(text.as_str()),
                _ => (state, LoadAction::Ignore),
            },
            _ => (state, LoadAction::Ignore),
        }
    }
}

impl LoadState {
    /// Whether the state is one of the three that end a run.
    pub open spec fn is_final(self) -> bool {
        self == LoadState::Loaded || self == LoadState::Terminated || self == LoadState::Failed
    }
}

/// A final state is never left, and nothing more is asked for in it.
pub proof fn lemma_final_states_stay(state: LoadState, event: LoadEvent)
    requires
        state.is_final(),
    ensures
        transition(state, event) == (state, LoadActionView::Ignore),
{
}

/// The run ends exactly with the actions that hand something out or end the
/// process: `Finish` leads to `Loaded`, `Exit` to `Terminated`, `Fail` to
/// `Failed`, and nothing else leads to a final state that was not there
/// before.
pub proof fn lemma_final_actions(state: LoadState, event: LoadEvent)
    ensures
        ({
            let (next, action) = transition(state, event);
            &&& action is Finish <==> next == LoadState::Loaded && state != LoadState::Loaded
            &&& action is Exit <==> next == LoadState::Terminated && state != LoadState::Terminated
            &&& action is Fail <==> next == LoadState::Failed && state != LoadState::Failed
        }),
{
}

/// Whether `needle` stands in `text` from position `at` on.
pub open spec fn stands_at(text: Seq<char>, needle: Seq<char>, at: int) -> bool {
    0 <= at && at + needle.len() <= text.len() && text.subrange(at, at + needle.len()) == needle
}

/// Where the configuration file cannot be opened, whatever the reason, the
/// process is told to exit with a status other than zero and a message that
/// says that the file could not be loaded and why. No configuration comes
/// of it.
pub proof fn lemma_unopened_terminates(reason: String)
    ensures
        ({
            let (next, action) = transition(LoadState::Opening, LoadEvent::Unopened(reason));
            &&& next == LoadState::Terminated
            &&& action matches LoadActionView::Exit { message, status }
            &&& status == 1
            &&& status != 0
            &&& stands_at(message, "could not be loaded"@, 12)
            &&& stands_at(message, reason@, 33)
            &&& message.len() == 33 + reason@.len()
        }),
{
    reveal_strlit("config.yaml could not be loaded: ");
    reveal_strlit("could not be loaded");
    let message = unopened_message(reason@);
    assert(message.subrange(12, 31) =~= "could not be loaded"@);
    assert(message.subrange(33, 33 + reason@.len() as int) =~= reason@);
}

/// A configuration is handed out only for the contents of the configuration
/// file, only where they hold that configuration, and it is valid.
pub proof fn lemma_finish_is_what_was_read(state: LoadState, event: LoadEvent, config: ConfigView)
    requires
        transition(state, event).1 == LoadActionView::Finish(config),
    ensures
        state == LoadState::Opening,
        event matches LoadEvent::Read(text) && ConfigView::of_text(text@) == Reading::Accepted(
            config,
        ),
        config.valid(),
{
    match event {
        LoadEvent::Read(text) => {
            lemma_accepted_text_is_stated(text@, config);
        },
        _ => {},
    }
}

/// A configuration file that states a configuration is loaded, and the
/// configuration handed out has every field as the file has it.
pub proof fn lemma_stated_file_loads(
    text: String,
    entries: Seq<(NodeView, NodeView)>,
    config: ConfigView,
)
    requires
        yaml_document(text@) == Some(NodeView::Mapping(entries)),
        states(entries, config),
    ensures
        transition(LoadState::Opening, LoadEvent::Read(text)) == (
            LoadState::Loaded,
            LoadActionView::Finish(config),
        ),
{
    lemma_stated_text_is_accepted(text@, entries, config);
}

/// Whether the outcome of a step is that loading failed on the schema.
pub open spec fn fails_on_schema(next: (LoadState, LoadActionView)) -> bool {
    next.0 == LoadState::Failed && next.1 matches LoadActionView::Fail(LoadErrorView::Schema(_))
}

/// A configuration file that leaves out a required field fails the load.
pub proof fn lemma_incomplete_file_fails(
    text: String,
    entries: Seq<(NodeView, NodeView)>,
    field: Field,
)
    requires
        yaml_document(text@) == Some(NodeView::Mapping(entries)),
        field.required(),
        !has_key(entries, field.key()),
    ensures
        fails_on_schema(transition(LoadState::Opening, LoadEvent::Read(text))),
{
    lemma_missing_field_rejected(entries, field);
}

/// A configuration file in which a guild identifier is zero fails the load.
pub proof fn lemma_zero_guild_fails(
    text: String,
    entries: Seq<(NodeView, NodeView)>,
    inner: Seq<(NodeView, NodeView)>,
    field: Field,
)
    requires
        yaml_document(text@) == Some(NodeView::Mapping(entries)),
        field.of_servers(),
        lookup(entries, Field::Servers) == Ok::<Option<NodeView>, SchemaError>(
            Some(NodeView::Mapping(inner)),
        ),
        lookup(inner, field) == Ok::<Option<NodeView>, SchemaError>(Some(NodeView::Unsigned(0))),
    ensures
        fails_on_schema(transition(LoadState::Opening, LoadEvent::Read(text))),
{
    lemma_zero_guild_rejected(entries, inner, field);
}

/// A configuration file in which an owner or a protected bot has the
/// identifier zero fails the load.
pub proof fn lemma_zero_in_list_fails(
    text: String,
    entries: Seq<(NodeView, NodeView)>,
    field: Field,
    items: Seq<NodeView>,
    i: int,
)
    requires
        yaml_document(text@) == Some(NodeView::Mapping(entries)),
        field == Field::Owners || field == Field::ProtectedBots,
        lookup(entries, field) == Ok::<Option<NodeView>, SchemaError>(
            Some(NodeView::Sequence(items)),
        ),
        0 <= i < items.len(),
        items[i] == NodeView::Unsigned(0),
    ensures
        fails_on_schema(transition(LoadState::Opening, LoadEvent::Read(text))),
{
    lemma_zero_in_list_rejected(entries, field, items, i);
}

/// The sample file as an action leaves it, `None` standing for no file:
/// removing leaves none, creating leaves an empty one, writing adds to what
/// is there. Other actions do not touch it.
pub open spec fn sample_after(action: LoadActionView, sample: Option<Seq<char>>) -> Option<
    Seq<char>,
> {
    match action {
        LoadActionView::RemoveSample => None,
        LoadActionView::CreateSample => Some(Seq::empty()),
        LoadActionView::WriteSample(text) => match sample {
            Some(contents) => Some(contents + text),
            None => None,
        },
        _ => sample,
    }
}

/// What a file system that does not fail reports of an action on the sample
/// file.
pub open spec fn sample_report(action: LoadActionView, sample: Option<Seq<char>>) -> LoadEvent {
    match action {
        LoadActionView::ProbeSample => LoadEvent::Probed(sample is Some),
        _ => LoadEvent::Done,
    }
}

/// Whether the action is a step on the sample file.
pub open spec fn on_sample(action: LoadActionView) -> bool {
    action is ProbeSample || action is RemoveSample || action is CreateSample
        || action is WriteSample
}

/// A run of the loader against a file system that does not fail, from the
/// given state and event up to the first action that is no step on the
/// sample file, for at most `steps` steps: the state and the action it ends
/// with, and the sample file as it is left.
pub open spec fn sample_run(
    state: LoadState,
    event: LoadEvent,
    sample: Option<Seq<char>>,
    steps: nat,
) -> (LoadState, LoadActionView, Option<Seq<char>>)
    decreases steps,
{
    let (next, action) = transition(state, event);
    if steps == 0 || !on_sample(action) {
        (next, action, sample)
    } else {
        sample_run(
            next,
            sample_report(action, sample),
            sample_after(action, sample),
            (steps - 1) as nat,
        )
    }
}

/// Regenerating the sample file does not depend on what was there: whether
/// or not a sample file existed, and whatever it held, a run from the start
/// leaves a sample file whose contents are the text of the default
/// configuration, and goes on to read the configuration file.
pub proof fn lemma_sample_regenerated(before: Option<Seq<char>>, text: Seq<char>)
    requires
        ConfigView::defaults().text() == Some(text),
    ensures
        sample_run(LoadState::Unloaded, LoadEvent::Start, before, 5) == (
            LoadState::Opening,
            LoadActionView::ReadConfig,
            Some(text),
        ),
{
    reveal_with_fuel(sample_run, 6);
}

/// Regenerating the sample file twice in a row leaves what regenerating it
/// once leaves.
pub proof fn lemma_sample_idempotent(before: Option<Seq<char>>, text: Seq<char>)
    requires
        ConfigView::defaults().text() == Some(text),
    ensures
        ({
            let once = sample_run(LoadState::Unloaded, LoadEvent::Start, before, 5).2;
            let twice = sample_run(LoadState::Unloaded, LoadEvent::Start, once, 5).2;
            twice == once && once == Some(text)
        }),
{
    lemma_sample_regenerated(before, text);
    lemma_sample_regenerated(Some(text), text);
}

} // verus!
