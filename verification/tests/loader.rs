use embedded_config::loader::{DECLARED_FIELD, MANIFEST_FILE, OVERRIDE_VARIABLE, ROOT_VARIABLE};
use embedded_config::{Config, ConfigError, Event, Request, Scalar, Stage, Step, Variable};
use std::io::{Error, ErrorKind};
use std::path::Path;

fn joined(base: &str, relative: &str) -> String {
    Path::new(base).join(relative).to_string_lossy().into_owned()
}

fn variable(value: Option<&str>) -> Event {
    Event::Variable(value.map(|text| text.to_string()))
}

fn file(text: &str) -> Event {
    Event::File(Ok(text.as_bytes().to_vec()))
}

fn asked(step: Step) -> Stage {
    match step {
        Step::Ask(stage) => stage,
        Step::Finish(outcome) => panic!("finished early: {:?}", outcome.err()),
    }
}

fn finished(step: Step) -> Result<Config, ConfigError> {
    match step {
        Step::Finish(outcome) => outcome,
        Step::Ask(stage) => panic!("not finished: {:?}", stage),
    }
}

fn manifest_stage(root: &str) -> Stage {
    Stage::Manifest { root: root.to_string() }
}

#[test]
fn names_are_fixed() {
    assert_eq!(OVERRIDE_VARIABLE, "EMBEDDED_CONFIG_PATH");
    assert_eq!(ROOT_VARIABLE, "CARGO_MANIFEST_DIR");
    assert_eq!(MANIFEST_FILE, "Cargo.toml");
    assert_eq!(DECLARED_FIELD, "package.metadata.embedded-config.path");
    assert_eq!(Variable::Override.name(), "EMBEDDED_CONFIG_PATH");
    assert_eq!(Variable::ProjectRoot.name(), "CARGO_MANIFEST_DIR");
}

#[test]
fn the_load_starts_with_the_override() {
    assert_eq!(Stage::start(), Stage::Override);
    assert_eq!(Stage::start().request(), Request::Variable(Variable::Override));
}

#[test]
fn each_stage_has_its_request() {
    assert_eq!(Stage::ProjectRoot.request(), Request::Variable(Variable::ProjectRoot));
    assert_eq!(manifest_stage("proj").request(), Request::File(joined("proj", "Cargo.toml")));
    assert_ne!(manifest_stage("proj").request(), Request::File("proj".to_string()));
    assert_eq!(
        Stage::Document { path: "x/y.toml".to_string() }.request(),
        Request::File("x/y.toml".to_string())
    );
}

#[test]
fn an_override_is_the_path_as_it_stands() {
    let stage = asked(Stage::start().advance(variable(Some("../conf/My File.toml"))));
    assert_eq!(stage, Stage::Document { path: "../conf/My File.toml".to_string() });
    assert_eq!(stage.request(), Request::File("../conf/My File.toml".to_string()));
}

#[test]
fn an_override_skips_root_and_manifest() {
    let mut stage = asked(Stage::start().advance(variable(Some("o.toml"))));
    let mut requests = vec![stage.request()];
    for _ in 0..3 {
        stage = asked(stage.advance(variable(Some("proj"))));
        requests.push(stage.request());
    }
    assert_eq!(requests, vec![Request::File("o.toml".to_string()); 4]);
    let config = finished(stage.advance(file("v = 3\n"))).unwrap();
    assert_eq!(config.resolve_scalar("v").unwrap(), Scalar::Integer(3));
}

#[test]
fn an_unset_or_empty_override_leads_to_the_root() {
    assert_eq!(asked(Stage::start().advance(variable(None))), Stage::ProjectRoot);
    assert_eq!(asked(Stage::start().advance(variable(Some("")))), Stage::ProjectRoot);
}

#[test]
fn an_unset_root_is_a_missing_location() {
    let outcome = finished(Stage::ProjectRoot.advance(variable(None)));
    assert!(matches!(outcome, Err(ConfigError::MissingLocationConfig)));
}

#[test]
fn a_root_leads_to_its_manifest() {
    let stage = asked(Stage::ProjectRoot.advance(variable(Some("/work/proj"))));
    assert_eq!(stage, manifest_stage("/work/proj"));
    assert_eq!(stage.request(), Request::File(joined("/work/proj", "Cargo.toml")));
}

#[test]
fn an_empty_root_is_still_a_root() {
    let stage = asked(Stage::ProjectRoot.advance(variable(Some(""))));
    assert_eq!(stage, manifest_stage(""));
    assert_eq!(stage.request(), Request::File("Cargo.toml".to_string()));
}

#[test]
fn a_declared_path_is_joined_onto_the_root() {
    let manifest = "[package]\nname = \"p\"\n[package.metadata.embedded-config]\npath = \"cfg/app.toml\"\n";
    let stage = asked(manifest_stage("/work/proj").advance(file(manifest)));
    assert_eq!(stage, Stage::Document { path: joined("/work/proj", "cfg/app.toml") });
    assert_ne!(stage, Stage::Document { path: "cfg/app.toml".to_string() });
}

#[test]
fn a_manifest_without_the_path_is_a_missing_location() {
    for manifest in [
        "",
        "[package]\nname = \"p\"\n",
        "[package.metadata]\nother = 1\n",
        "[package.metadata.embedded-config]\nfile = \"x\"\n",
        "[package]\nmetadata = 3\n",
    ] {
        let outcome = finished(manifest_stage("proj").advance(file(manifest)));
        assert!(matches!(outcome, Err(ConfigError::MissingLocationConfig)), "{manifest}");
    }
}

#[test]
fn a_declared_path_that_is_no_string_is_invalid() {
    for value in ["1", "true", "1.5", "[\"a\"]", "{ a = \"b\" }", "1979-05-27"] {
        let manifest = format!("[package.metadata.embedded-config]\npath = {value}\n");
        let outcome = finished(manifest_stage("proj").advance(file(&manifest)));
        assert!(matches!(outcome, Err(ConfigError::InvalidLocationValue)), "{value}");
    }
}

#[test]
fn a_manifest_that_does_not_load_ends_the_load() {
    let missing = Event::File(Err(Error::from(ErrorKind::NotFound)));
    match finished(manifest_stage("proj").advance(missing)) {
        Err(ConfigError::SourceNotFound(path)) => assert_eq!(path, joined("proj", "Cargo.toml")),
        other => panic!("expected a missing source, got {:?}", other.err()),
    }
    let denied = Event::File(Err(Error::from(ErrorKind::PermissionDenied)));
    match finished(manifest_stage("proj").advance(denied)) {
        Err(ConfigError::SourceReadError(path, _)) => {
            assert_eq!(path, joined("proj", "Cargo.toml"))
        }
        other => panic!("expected a read error, got {:?}", other.err()),
    }
    let outcome = finished(manifest_stage("proj").advance(Event::File(Ok(vec![0xc0]))));
    assert!(matches!(outcome, Err(ConfigError::InvalidEncoding(0))));
    let outcome = finished(manifest_stage("proj").advance(file("[package")));
    assert!(matches!(outcome, Err(ConfigError::ParseError(_))));
}

#[test]
fn the_document_stage_finishes_with_the_load() {
    let stage = Stage::Document { path: "d.toml".to_string() };
    let config = finished(stage.clone().advance(file("[s]\nk = \"v\"\n"))).unwrap();
    assert_eq!(config.resolve_scalar("s.k").unwrap(), Scalar::Text("v".to_string()));
    let missing = Event::File(Err(Error::from(ErrorKind::NotFound)));
    match finished(stage.clone().advance(missing)) {
        Err(ConfigError::SourceNotFound(path)) => assert_eq!(path, "d.toml"),
        other => panic!("expected a missing source, got {:?}", other.err()),
    }
    let outcome = finished(stage.advance(file("k = ")));
    assert!(matches!(outcome, Err(ConfigError::ParseError(_))));
}

#[test]
fn an_event_that_answers_nothing_leaves_the_stage() {
    assert_eq!(asked(Stage::Override.advance(file("a = 1"))), Stage::Override);
    assert_eq!(asked(Stage::ProjectRoot.advance(file("a = 1"))), Stage::ProjectRoot);
    assert_eq!(asked(manifest_stage("r").advance(variable(Some("x")))), manifest_stage("r"));
    assert_eq!(asked(manifest_stage("r").advance(variable(None))), manifest_stage("r"));
    let document = Stage::Document { path: "d".to_string() };
    assert_eq!(asked(document.clone().advance(variable(None))), document);
}

#[test]
fn a_whole_load_through_the_manifest() {
    let manifest = "[package.metadata.embedded-config]\npath = \"settings.toml\"\n";
    let mut stage = Stage::start();
    let mut requests = Vec::new();
    let outcome = loop {
        let request = stage.request();
        let event = match &request {
            Request::Variable(Variable::Override) => variable(None),
            Request::Variable(Variable::ProjectRoot) => variable(Some("proj")),
            Request::File(path) if *path == joined("proj", "Cargo.toml") => file(manifest),
            Request::File(path) if *path == joined("proj", "settings.toml") => file("x = 9\n"),
            Request::File(path) => panic!("unexpected read of {path}"),
        };
        requests.push(request);
        match stage.advance(event) {
            Step::Ask(next) => stage = next,
            Step::Finish(outcome) => break outcome,
        }
    };
    assert_eq!(
        requests,
        vec![
            Request::Variable(Variable::Override),
            Request::Variable(Variable::ProjectRoot),
            Request::File(joined("proj", "Cargo.toml")),
            Request::File(joined("proj", "settings.toml")),
        ]
    );
    assert_eq!(outcome.unwrap().resolve_scalar("x").unwrap(), Scalar::Integer(9));
}
