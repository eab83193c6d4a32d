//! Where the configuration document is, and the steps that load it.
//!
//! The loader decides; its caller reads. Each stage names one thing that the
//! caller must read, an environment variable or a file, and `advance` takes
//! what was read and says what comes next.

use vstd::prelude::*;
use crate::config::{config_outcome, loaded, Config};
use crate::error::{ConfigError, Failure};
use crate::outside::{join_path, joined, value_shape};
use crate::path::segments;
use crate::scalar::Shape;
use crate::tree::{descend, Node};

verus! {

/// The variable that names the document directly.
pub const OVERRIDE_VARIABLE: &'static str = "EMBEDDED_CONFIG_PATH";

/// The variable that names the directory of the project.
pub const ROOT_VARIABLE: &'static str = "CARGO_MANIFEST_DIR";

/// The manifest's file name, under the project's directory.
pub const MANIFEST_FILE: &'static str = "Cargo.toml";

/// The field of the manifest that declares the document's path.
pub const DECLARED_FIELD: &'static str = "package.metadata.embedded-config.path";

/// An environment variable that the loader reads.
#[derive(Debug, Clone, Copy, PartialEq, Eq, Structural)]
pub enum Variable {
    Override,
    ProjectRoot,
}

/// What the loader waits for.
#[derive(Debug, Clone, PartialEq, Eq)]
pub enum Stage {
    /// The value of the override variable.
    Override,
    /// The value of the project root variable.
    ProjectRoot,
    /// The bytes of the manifest under this root.
    Manifest { root: String },
    /// The bytes of the document at this path.
    Document { path: String },
}

/// What the caller must read for a stage.
#[derive(Debug, Clone, PartialEq, Eq)]
pub enum Request {
    Variable(Variable),
    File(String),
}

/// What the caller has read: the value of a variable, if it is set, or the
/// outcome of reading a file.
pub enum Event {
    Variable(Option<String>),
    File(Result<Vec<u8>, std::io::Error>),
}

/// What comes after an event: another stage, or the end of the load.
pub enum Step {
    Ask(Stage),
    Finish(Result<Config, ConfigError>),
}

/// A `Stage` as contracts see it.
pub enum StageView {
    Override,
    ProjectRoot,
    Manifest { root: Seq<char> },
    Document { path: Seq<char> },
}

/// A `Request` as contracts see it.
pub enum RequestView {
    Variable(Variable),
    File(Seq<char>),
}

/// An `Event` as contracts see it.
pub enum EventView {
    Variable(Option<Seq<char>>),
    File(Result<Seq<u8>, std::io::Error>),
}

/// A `Step` as contracts see it.
pub enum StepView {
    Ask(StageView),
    Finish(Result<Node, Failure>),
}

impl View for Stage {
    type V = StageView;

    open spec fn view(&self) -> StageView {
        match *self {
            Stage::Override => StageView::Override,
            Stage::ProjectRoot => StageView::ProjectRoot,
            Stage::Manifest { root } => StageView::Manifest { root: root@ },
            Stage::Document { path } => StageView::Document { path: path@ },
        }
    }
}

impl View for Request {
    type V = RequestView;

    open spec fn view(&self) -> RequestView {
        match *self {
            Request::Variable(variable) => RequestView::Variable(variable),
            Request::File(path) => RequestView::File(path@),
        }
    }
}

impl View for Event {
    type V = EventView;

    open spec fn view(&self) -> EventView {
        match *self {
            Event::Variable(Some(value)) => EventView::Variable(Some(value@)),
            Event::Variable(None) => EventView::Variable(None),
            Event::File(Ok(bytes)) => EventView::File(Ok(bytes@)),
            Event::File(Err(cause)) => EventView::File(Err(cause)),
        }
    }
}

impl View for Step {
    type V = StepView;

    open spec fn view(&self) -> StepView {
        match *self {
            Step::Ask(stage) => StepView::Ask(stage@),
            Step::Finish(outcome) => StepView::Finish(config_outcome(outcome)),
        }
    }
}

/// The name of a variable in the environment.
pub open spec fn variable_name(variable: Variable) -> Seq<char> {
    match variable {
        Variable::Override => OVERRIDE_VARIABLE@,
        Variable::ProjectRoot => ROOT_VARIABLE@,
    }
}

/// The path of the manifest under a project root.
pub open spec fn manifest_path(root: Seq<char>) -> Seq<char> {
    joined(root, MANIFEST_FILE@)
}

/// What a stage asks its caller to read.
pub open spec fn request_of(stage: StageView) -> RequestView {
    match stage {
        StageView::Override => RequestView::Variable(Variable::Override),
        StageView::ProjectRoot => RequestView::Variable(Variable::ProjectRoot),
        StageView::Manifest { root } => RequestView::File(manifest_path(root)),
        StageView::Document { path } => RequestView::File(path),
    }
}

/// What follows from a loaded manifest: the document at the declared path,
/// joined onto the root, where the manifest declares one as a string; no
/// location where it declares none; an invalid location where it declares
/// anything else.
pub open spec fn after_manifest(root: Seq<char>, manifest: Node) -> StepView {
    match descend(manifest, segments(DECLARED_FIELD@)) {
        Some(Node::Text(relative)) => StepView::Ask(
            StageView::Document { path: joined(root, relative) },
        ),
        Some(_) => StepView::Finish(Err(Failure::InvalidLocationValue)),
        None => StepView::Finish(Err(Failure::MissingLocationConfig)),
    }
}

/// The step that an event leads to from a stage. An override that is set and
/// not empty is the document's path as it stands. Otherwise the project root
/// must be set, and the manifest under it declares the path. An event that
/// does not answer the stage's request leaves the stage as it is.
pub open spec fn next_step(stage: StageView, event: EventView) -> StepView {
    match (stage, event) {
        (StageView::Override, EventView::Variable(Some(path))) => if path.len() > 0 {
            StepView::Ask(StageView::Document { path })
        } else {
            StepView::Ask(StageView::ProjectRoot)
        },
        (StageView::Override, EventView::Variable(None)) => StepView::Ask(StageView::ProjectRoot),
        (StageView::ProjectRoot, EventView::Variable(Some(root))) => StepView::Ask(
            StageView::Manifest { root },
        ),
        (StageView::ProjectRoot, EventView::Variable(None)) => StepView::Finish(
            Err(Failure::MissingLocationConfig),
        ),
        (StageView::Manifest { root }, EventView::File(read)) => match loaded(
            manifest_path(root),
            read,
        ) {
            Ok(manifest) => after_manifest(root, manifest),
            Err(failure) => StepView::Finish(Err(failure)),
        },
        (StageView::Document { path }, EventView::File(read)) => StepView::Finish(
            loaded(path, read),
        ),
        _ => StepView::Ask(stage),
    }
}

/// The requests that a caller meets while it feeds `events` to the loader,
/// one after the other, from `stage` on: the request of the stage, then those
/// of the stages that follow, until the load finishes or the events run out.
pub open spec fn requests(stage: StageView, events: Seq<EventView>) -> Seq<RequestView>
    decreases events.len(),
{
    if events.len() == 0 {
        seq![request_of(stage)]
    } else {
        match next_step(stage, events[0]) {
            StepView::Ask(next) => seq![request_of(stage)] + requests(next, events.drop_first()),
            StepView::Finish(_) => seq![request_of(stage)],
        }
    }
}

impl Variable {
    /// The name of the variable in the environment.
    pub fn name(self) -> (name: &'static str)
        ensures
            name@ == variable_name(self),
    {
        match self {
            Variable::Override => OVERRIDE_VARIABLE,
            Variable::ProjectRoot => ROOT_VARIABLE,
        }
    }
}

impl Stage {
    /// The stage that every load starts in.
    pub fn start() -> (stage: Stage)
        ensures
            stage@ == StageView::Override,
    {
        Stage::Override
    }

    /// What the caller must read next.
    pub fn request(&self) -> (request: Request)
        ensures
            request@ == request_of(self@),
    {
        match self {
            Stage::Override => Request::Variable(Variable::Override),
            Stage::ProjectRoot => Request::Variable(Variable::ProjectRoot),
            Stage::Manifest { root } => Request::File(join_path(root.as_str(), MANIFEST_FILE)),
            Stage::Document { path } => Request::File(path.clone()),
        }
    }

    /// Takes what the caller has read and decides what comes next.
    pub fn advance(self, event: Event) -> (step: Step)
        ensures
            step@ == next_step(self@, event@),
    {
        match self {
            Stage::Override => match event {
                Event::Variable(Some(path)) => if !path.as_str().is_empty() {
                    Step::Ask(Stage::Document { path })
                } else {
                    Step::Ask(Stage::ProjectRoot)
                },
                Event::Variable(None) => Step::Ask(Stage::ProjectRoot),
                Event::File(_) => Step::Ask(Stage::Override),
            },
            Stage::ProjectRoot => match event {
                Event::Variable(Some(root)) => Step::Ask(Stage::Manifest { root }),
                Event::Variable(None) => Step::Finish(Err(ConfigError::MissingLocationConfig)),
                Event::File(_) => Step::Ask(Stage::ProjectRoot),
            },
            Stage::Manifest { root } => match event {
                Event::File(read) => {
                    let path = join_path(root.as_str(), MANIFEST_FILE);
                    match Config::from_file(path, read) {
                        Ok(manifest) => Stage::declared(root, &manifest),
                        Err(error) => Step::Finish(Err(error)),
                    }
                },
                Event::Variable(_) => Step::Ask(Stage::Manifest { root }),
            },
            Stage::Document { path } => match event {
                Event::File(read) => Step::Finish(Config::from_file(path, read)),
                Event::Variable(_) => Step::Ask(Stage::Document { path }),
            },
        }
    }

    /// Reads the declared path out of a loaded manifest.
    pub fn declared(root: String, manifest: &Config) -> (step: Step)
        ensures
            step@ == after_manifest(root@, manifest@),
    {
        match manifest.resolve_field(DECLARED_FIELD) {
            Ok(value) => match value_shape(&value) {
                Shape::Text(relative) => Step::Ask(
                    Stage::Document { path: join_path(root.as_str(), relative.as_str()) },
                ),
                _ => Step::Finish(Err(ConfigError::InvalidLocationValue)),
            },
            Err(_) => Step::Finish(Err(ConfigError::MissingLocationConfig)),
        }
    }
}

/// Once the loader waits for the document at a path, all that it ever asks
/// for is the file at that path.
pub proof fn lemma_document_stage_reads_document(path: Seq<char>, events: Seq<EventView>)
    ensures
        forall|at: int|
            0 <= at < requests(StageView::Document { path }, events).len() ==> requests(
                StageView::Document { path },
                events,
            )[at] == RequestView::File(path),
    decreases events.len(),
{
    if events.len() > 0 {
        lemma_document_stage_reads_document(path, events.drop_first());
    }
}

/// An override that is set and not empty dominates: after it was read, the
/// loader asks for the file that it names and for nothing else, whatever
/// follows. It reads neither the project root nor the manifest.
pub proof fn lemma_override_dominates(path: Seq<char>, events: Seq<EventView>)
    requires
        path.len() > 0,
    ensures
        next_step(StageView::Override, EventView::Variable(Some(path))) == StepView::Ask(
            StageView::Document { path },
        ),
        forall|at: int|
            1 <= at < requests(
                StageView::Override,
                seq![EventView::Variable(Some(path))] + events,
            ).len() ==> requests(
                StageView::Override,
                seq![EventView::Variable(Some(path))] + events,
            )[at] == RequestView::File(path),
{
    let all = seq![EventView::Variable(Some(path))] + events;
    assert(all[0] == EventView::Variable(Some(path)));
    assert(all.drop_first() == events);
    lemma_document_stage_reads_document(path, events);
}

/// Without an override, set or not empty, a manifest that loads but lacks
/// the declared path ends the load with a missing location. The loader has
/// then asked for the two variables and for the manifest, and asks for no
/// further file: the document is never attempted.
pub proof fn lemma_undeclared_path_is_missing_location(
    unset: Option<Seq<char>>,
    root: Seq<char>,
    read: Result<Seq<u8>, std::io::Error>,
    manifest: Node,
    events: Seq<EventView>,
)
    requires
        unset matches Some(value) ==> value.len() == 0,
        loaded(manifest_path(root), read) == Ok::<Node, Failure>(manifest),
        descend(manifest, segments(DECLARED_FIELD@)) is None,
    ensures
        next_step(StageView::Override, EventView::Variable(unset)) == StepView::Ask(
            StageView::ProjectRoot,
        ),
        next_step(StageView::ProjectRoot, EventView::Variable(Some(root))) == StepView::Ask(
            StageView::Manifest { root },
        ),
        next_step(StageView::Manifest { root }, EventView::File(read)) == StepView::Finish(
            Err(Failure::MissingLocationConfig),
        ),
        requests(
            StageView::Override,
            seq![
                EventView::Variable(unset),
                EventView::Variable(Some(root)),
                EventView::File(read),
            ] + events,
        ) == seq![
            RequestView::Variable(Variable::Override),
            RequestView::Variable(Variable::ProjectRoot),
            RequestView::File(manifest_path(root)),
        ],
{
    let first = seq![
        EventView::Variable(unset),
        EventView::Variable(Some(root)),
        EventView::File(read),
    ] + events;
    let second = seq![EventView::Variable(Some(root)), EventView::File(read)] + events;
    let third = seq![EventView::File(read)] + events;
    assert(first[0] == EventView::Variable(unset));
    assert(first.drop_first() == second);
    assert(second[0] == EventView::Variable(Some(root)));
    assert(second.drop_first() == third);
    assert(third[0] == EventView::File(read));
    assert(requests(StageView::Manifest { root }, third) == seq![
        RequestView::File(manifest_path(root)),
    ]);
    assert(requests(StageView::ProjectRoot, second) == seq![
        RequestView::Variable(Variable::ProjectRoot),
        RequestView::File(manifest_path(root)),
    ]);
}

} // verus!
