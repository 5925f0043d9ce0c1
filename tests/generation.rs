use webgen::generator::{generate_project, join_path, Action, Event, GenerationError, Materializer};
use webgen::path_safety::{validate_path, validate_project_name, PathIssue};
use webgen::plan::{validate_plan, FileUnit};
use webgen::registry::{same_id, Registry};
use webgen::templates::{get_available_templates, TemplateKind};

const ALL_KINDS: [TemplateKind; 6] = [
    TemplateKind::Flask,
    TemplateKind::Mern,
    TemplateKind::NextJs,
    TemplateKind::React,
    TemplateKind::Vue,
    TemplateKind::StaticHtml,
];

/// What a run did to an in-memory file system.
struct Trace {
    checked: Vec<String>,
    created: Vec<String>,
    written: Vec<(String, String)>,
    removed: Vec<String>,
    result: Result<usize, GenerationError>,
}

/// Drives `m` against a simulated file system: `root_exists` answers the
/// check, `create_error` fails the creation, `fail_write` fails that write,
/// `remove_error` fails the rollback.
fn drive(
    mut m: Materializer,
    root_exists: bool,
    create_error: Option<bool>,
    fail_write: Option<usize>,
    remove_error: bool,
) -> Trace {
    let mut trace = Trace {
        checked: Vec::new(),
        created: Vec::new(),
        written: Vec::new(),
        removed: Vec::new(),
        result: Ok(usize::MAX),
    };
    let mut writes = 0usize;
    let mut action = m.step(Event::Start);
    loop {
        let event = match action {
            Action::CheckRoot { path } => {
                trace.checked.push(path);
                Event::Probed { exists: root_exists }
            }
            Action::CreateRoot { path } => match create_error {
                Some(already_exists) => Event::CreateFailed {
                    already_exists,
                    cause: "cannot create".to_string(),
                },
                None => {
                    trace.created.push(path);
                    Event::Created
                }
            },
            Action::WriteFile { path, content } => {
                let k = writes;
                writes += 1;
                if fail_write == Some(k) {
                    Event::WriteFailed { cause: "permission denied".to_string() }
                } else {
                    trace.written.push((path, content));
                    Event::Written
                }
            }
            Action::RemoveRoot { path } => {
                if remove_error {
                    Event::RemoveFailed { cause: "busy".to_string() }
                } else {
                    trace.removed.push(path);
                    Event::Removed
                }
            }
            Action::Finish(result) => {
                trace.result = result;
                break;
            }
        };
        assert!(m.accepts(&event));
        action = m.step(event);
    }
    assert!(m.is_done());
    trace
}

fn five_units() -> Vec<FileUnit> {
    vec![
        FileUnit::new("a.txt", "one"),
        FileUnit::new("b/b.txt", "two"),
        FileUnit::new("c.txt", "three"),
        FileUnit::new("d/e/f.txt", "four"),
        FileUnit::new("g.txt", "five"),
    ]
}

#[test]
fn unknown_template_lists_every_display_name() {
    let registry = Registry::standard();
    match registry.resolve("django") {
        Err(e) => {
            assert_eq!(e.requested, "django");
            assert_eq!(
                e.known,
                vec![
                    "Flask Portfolio",
                    "MERN Stack",
                    "Next.js App",
                    "React Portfolio",
                    "Vue Portfolio",
                    "Static HTML"
                ]
            );
        }
        Ok(kind) => panic!("resolved to {:?}", kind),
    }
    match generate_project(&registry, "site", "django", "/tmp") {
        Err(GenerationError::UnknownTemplate(e)) => assert_eq!(e.known.len(), 6),
        _ => panic!("expected an unknown template"),
    }
}

#[test]
fn existing_root_is_a_collision_and_untouched() {
    let m = Materializer::new("/tmp", "myproj", five_units()).unwrap();
    let trace = drive(m, true, None, None, false);
    assert_eq!(trace.checked, vec!["/tmp/myproj"]);
    assert!(trace.created.is_empty());
    assert!(trace.written.is_empty());
    assert!(trace.removed.is_empty());
    match trace.result {
        Err(GenerationError::Collision { root }) => assert_eq!(root, "/tmp/myproj"),
        other => panic!("unexpected {:?}", other),
    }
}

#[test]
fn root_appearing_during_creation_is_a_collision() {
    let m = Materializer::new("/tmp", "myproj", five_units()).unwrap();
    let trace = drive(m, false, Some(true), None, false);
    assert!(trace.written.is_empty());
    assert!(trace.removed.is_empty());
    assert!(matches!(trace.result, Err(GenerationError::Collision { .. })));
}

#[test]
fn failed_root_creation_is_an_io_error_without_rollback() {
    let m = Materializer::new("/tmp", "myproj", five_units()).unwrap();
    let trace = drive(m, false, Some(false), None, false);
    assert!(trace.removed.is_empty());
    match trace.result {
        Err(GenerationError::Io { path, cause, rollback }) => {
            assert_eq!(path, "/tmp/myproj");
            assert_eq!(cause, "cannot create");
            assert!(rollback.is_none());
        }
        other => panic!("unexpected {:?}", other),
    }
}

#[test]
fn every_template_plan_is_valid() {
    for kind in ALL_KINDS {
        let plan = kind.plan();
        assert!(!plan.is_empty());
        assert!(validate_plan(&plan).is_ok());
        for (i, unit) in plan.iter().enumerate() {
            assert!(!unit.path.starts_with('/'));
            assert!(unit.path.split('/').all(|s| s != ".." && !s.is_empty()));
            for other in &plan[i + 1..] {
                assert_ne!(unit.path, other.path);
            }
        }
    }
}

#[test]
fn plan_is_deterministic() {
    for kind in ALL_KINDS {
        let a = kind.plan();
        let b = kind.plan();
        assert_eq!(a.len(), b.len());
        for (x, y) in a.iter().zip(b.iter()) {
            assert_eq!(x.path, y.path);
            assert_eq!(x.content, y.content);
        }
    }
}

#[test]
fn static_html_end_to_end() {
    let registry = Registry::standard();
    let m = generate_project(&registry, "myproj", "static-html", "/tmp").unwrap();
    let trace = drive(m, false, None, None, false);
    assert_eq!(trace.created, vec!["/tmp/myproj"]);
    let paths: Vec<&str> = trace.written.iter().map(|(p, _)| p.as_str()).collect();
    assert_eq!(
        paths,
        vec![
            "/tmp/myproj/index.html",
            "/tmp/myproj/css/style.css",
            "/tmp/myproj/js/main.js",
            "/tmp/myproj/README.md",
            "/tmp/myproj/.gitignore"
        ]
    );
    assert!(trace.written.iter().all(|(_, c)| !c.is_empty()));
    assert!(trace.written[0].1.starts_with("<!DOCTYPE html>"));
    assert!(trace.removed.is_empty());
    assert_eq!(trace.result.unwrap(), 5);
}

#[test]
fn failed_third_write_rolls_back() {
    let m = Materializer::new("/tmp", "myproj", five_units()).unwrap();
    let trace = drive(m, false, None, Some(2), false);
    assert_eq!(trace.written.len(), 2);
    assert_eq!(trace.removed, vec!["/tmp/myproj"]);
    match trace.result {
        Err(GenerationError::Io { path, cause, rollback }) => {
            assert_eq!(path, "/tmp/myproj/c.txt");
            assert_eq!(cause, "permission denied");
            assert!(rollback.is_none());
        }
        other => panic!("unexpected {:?}", other),
    }
}

#[test]
fn failed_rollback_is_reported_beside_the_write_error() {
    let m = Materializer::new("/tmp", "myproj", five_units()).unwrap();
    let trace = drive(m, false, None, Some(0), true);
    match trace.result {
        Err(GenerationError::Io { path, rollback: Some(r), .. }) => {
            assert_eq!(path, "/tmp/myproj/a.txt");
            assert_eq!(r.root, "/tmp/myproj");
            assert_eq!(r.cause, "busy");
        }
        other => panic!("unexpected {:?}", other),
    }
}

#[test]
fn react_alias_resolves_to_same_provider() {
    let registry = Registry::standard();
    let a = registry.resolve("react").unwrap();
    let b = registry.resolve("react-portfolio").unwrap();
    assert_eq!(a, b);
    assert_eq!(a, TemplateKind::React);
}

#[test]
fn resolution_ignores_ascii_case() {
    let registry = Registry::standard();
    assert_eq!(registry.resolve("FLASK").unwrap(), TemplateKind::Flask);
    assert_eq!(registry.resolve("Static-HTML").unwrap(), TemplateKind::StaticHtml);
    assert_eq!(registry.resolve("next.js").unwrap(), TemplateKind::NextJs);
    assert_eq!(registry.resolve("nextjs").unwrap(), TemplateKind::NextJs);
    assert_eq!(registry.resolve("MERN-stack").unwrap(), TemplateKind::Mern);
    assert_eq!(registry.resolve("vue").unwrap(), TemplateKind::Vue);
    assert!(registry.resolve("").is_err());
    assert!(registry.resolve("reactx").is_err());
    assert!(same_id("Vue", "vUE"));
    assert!(!same_id("vue", "vue "));
}

#[test]
fn first_registered_entry_wins() {
    let mut registry = Registry::new();
    registry.register(TemplateKind::Vue, "site", vec!["web".to_string()], "Vue", "first");
    registry.register(TemplateKind::React, "web", vec![], "React", "second");
    assert_eq!(registry.len(), 2);
    assert_eq!(registry.resolve("web").unwrap(), TemplateKind::Vue);
    assert_eq!(registry.resolve("SITE").unwrap(), TemplateKind::Vue);
}

#[test]
fn listing_keeps_registration_order() {
    let registry = Registry::standard();
    let list = registry.list();
    assert_eq!(list.len(), 6);
    assert_eq!(list[0].0, "Flask Portfolio");
    assert_eq!(list[0].1, "Python Flask-based portfolio website with modern UI");
    assert_eq!(list[5].0, "Static HTML");
    assert_eq!(list[5].1, "Pure HTML/CSS/JS portfolio template");
    assert_eq!(
        get_available_templates(),
        vec![
            "Flask Portfolio",
            "MERN Stack",
            "Next.js App",
            "React Portfolio",
            "Vue Portfolio",
            "Static HTML"
        ]
    );
    assert_eq!(registry.display_names(), get_available_templates());
}

#[test]
fn path_issues_are_reported() {
    assert_eq!(validate_path("src/App.js"), Ok(()));
    assert_eq!(validate_path(".gitignore"), Ok(()));
    assert_eq!(validate_path("a/..b/c"), Ok(()));
    assert_eq!(validate_path(""), Err(PathIssue::Empty));
    assert_eq!(validate_path("/etc/passwd"), Err(PathIssue::Absolute));
    assert_eq!(validate_path("a\\b"), Err(PathIssue::ForbiddenChar));
    assert_eq!(validate_path("a\0b"), Err(PathIssue::ForbiddenChar));
    assert_eq!(validate_path("../up"), Err(PathIssue::DotSegment));
    assert_eq!(validate_path("a/../b"), Err(PathIssue::DotSegment));
    assert_eq!(validate_path("a/.."), Err(PathIssue::DotSegment));
    assert_eq!(validate_path("./a"), Err(PathIssue::DotSegment));
    assert_eq!(validate_path("a//b"), Err(PathIssue::EmptySegment));
    assert_eq!(validate_path("a/"), Err(PathIssue::EmptySegment));
}

#[test]
fn invalid_plan_stops_before_creation() {
    let plan = vec![
        FileUnit::new("ok.txt", "x"),
        FileUnit::new("../escape.txt", "y"),
    ];
    assert_eq!(validate_plan(&plan), Err((1, PathIssue::DotSegment)));
    let trace = drive(Materializer::new("out", "p", plan).unwrap(), false, None, None, false);
    assert!(trace.created.is_empty());
    assert!(trace.written.is_empty());
    match trace.result {
        Err(GenerationError::InvalidPath { unit, reason }) => {
            assert_eq!(unit, "../escape.txt");
            assert_eq!(reason, PathIssue::DotSegment);
        }
        other => panic!("unexpected {:?}", other),
    }
}

#[test]
fn duplicate_paths_are_refused() {
    let plan = vec![
        FileUnit::new("a.txt", "x"),
        FileUnit::new("b.txt", "y"),
        FileUnit::new("a.txt", "z"),
    ];
    assert_eq!(validate_plan(&plan), Err((2, PathIssue::Duplicate)));
}

#[test]
fn empty_plan_writes_nothing() {
    let trace = drive(Materializer::new("out", "p", Vec::new()).unwrap(), false, None, None, false);
    assert_eq!(trace.created, vec!["out/p"]);
    assert_eq!(trace.result.unwrap(), 0);
}

#[test]
fn project_names_are_single_segments() {
    assert!(validate_project_name("my-website"));
    assert!(validate_project_name("..x"));
    assert!(!validate_project_name(""));
    assert!(!validate_project_name("."));
    assert!(!validate_project_name(".."));
    assert!(!validate_project_name("a/b"));
    assert!(!validate_project_name("a\\b"));
    match Materializer::new("/tmp", "../evil", Vec::new()) {
        Err(GenerationError::InvalidProjectName { name }) => assert_eq!(name, "../evil"),
        _ => panic!("expected an invalid name"),
    }
    let registry = Registry::standard();
    assert!(matches!(
        generate_project(&registry, "a/b", "vue", "."),
        Err(GenerationError::InvalidProjectName { .. })
    ));
}

#[test]
fn paths_are_joined_with_one_separator() {
    assert_eq!(join_path("/tmp", "myproj"), "/tmp/myproj");
    assert_eq!(join_path("/tmp/", "myproj"), "/tmp/myproj");
    assert_eq!(join_path("", "myproj"), "myproj");
    assert_eq!(join_path(".", "a/b.txt"), "./a/b.txt");
}

#[test]
fn unexpected_events_are_refused() {
    let mut m = Materializer::new("/tmp", "p", five_units()).unwrap();
    assert!(m.accepts(&Event::Start));
    assert!(!m.accepts(&Event::Written));
    let _ = m.step(Event::Start);
    assert!(!m.accepts(&Event::Start));
    assert!(m.accepts(&Event::Probed { exists: false }));
}

#[test]
fn catalog_metadata() {
    assert_eq!(TemplateKind::Mern.canonical_id(), "mern-stack");
    assert_eq!(TemplateKind::Mern.short_id(), "mern");
    assert_eq!(TemplateKind::NextJs.display_name(), "Next.js App");
    assert_eq!(TemplateKind::Vue.description(), "Vue.js 3 portfolio with Composition API");
    assert_eq!(TemplateKind::Flask.plan().len(), 11);
    assert_eq!(TemplateKind::Mern.plan().len(), 12);
    assert_eq!(TemplateKind::NextJs.plan().len(), 11);
    assert_eq!(TemplateKind::React.plan().len(), 13);
    assert_eq!(TemplateKind::Vue.plan().len(), 11);
    assert_eq!(TemplateKind::StaticHtml.plan().len(), 5);
    let next = TemplateKind::NextJs.plan();
    assert!(next.iter().any(|u| u.path == "public/.gitkeep" && u.content.is_empty()));
}
