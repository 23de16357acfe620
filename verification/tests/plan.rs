use yew_scaffold::scaffold::{
    add_html_file, create_new_project, create_yew_app, update_cargo_toml, update_main_rs, Action,
    Scaffolder,
};

const MANIFEST_APPENDIX: &str = "yew = { version = \"0.21.0\", features = [\"csr\"] }\nwasm-bindgen = \"0.2\"\nweb-sys = \"0.3\"\n";

const HTML_PAYLOAD: &str = "\n<!DOCTYPE html>\n<html lang=\"en\">\n<head>\n    <meta charset=\"UTF-8\">\n    <meta name=\"viewport\" content=\"width=device-width, initial-scale=1.0\">\n    <title>Yew App</title>\n</head>\n<body>\n    <div id=\"app\"></div>\n    <script type=\"module\" src=\"/pkg/your_app_name.js\"></script>\n</body>\n</html>\n";

const MAIN_RS_PAYLOAD: &str = "\nuse yew::prelude::*;\n\n#[function_component(App)]\npub fn app() -> Html {\n    html! {\n        <div>{ \"Hello, Yew!\" }</div>\n    }\n}\n\nfn main() {\n    yew::Renderer::<App>::new().render();}\n";

fn content_of(a: &Action) -> &str {
    match a {
        Action::CreateProject { .. } => "",
        Action::AppendManifest { content, .. } => content,
        Action::WriteHtml { content, .. } => content,
        Action::WriteMain { content, .. } => content,
    }
}

#[test]
fn generator_step_carries_the_name() {
    let a = create_new_project("demo");
    match &a {
        Action::CreateProject { name } => assert_eq!(name, "demo"),
        _ => panic!("expected the generator step"),
    }
}

#[test]
fn manifest_step_appends_the_three_lines() {
    let a = update_cargo_toml("demo");
    match &a {
        Action::AppendManifest { path, content } => {
            assert_eq!(path, "demo/Cargo.toml");
            assert_eq!(content, MANIFEST_APPENDIX);
            assert_eq!(content.matches('\n').count(), 3);
        }
        _ => panic!("expected the manifest step"),
    }
}

#[test]
fn manifest_lines_do_not_depend_on_the_name() {
    let a = update_cargo_toml("alpha");
    let b = update_cargo_toml("omega");
    assert_eq!(content_of(&a), content_of(&b));
}

#[test]
fn markup_step_writes_the_constant_payload() {
    let a = add_html_file("demo");
    match &a {
        Action::WriteHtml { path, content } => {
            assert_eq!(path, "demo/index.html");
            assert_eq!(content, HTML_PAYLOAD);
        }
        _ => panic!("expected the markup step"),
    }
}

#[test]
fn markup_payload_is_identical_across_names() {
    let a = add_html_file("first-app");
    let b = add_html_file("second-app");
    assert_eq!(content_of(&a), content_of(&b));
}

#[test]
fn markup_refers_to_the_placeholder_not_the_name() {
    let a = add_html_file("demo");
    let content = content_of(&a);
    assert!(content.contains("src=\"/pkg/your_app_name.js\""));
    assert!(!content.contains("/pkg/demo.js"));
}

#[test]
fn source_step_writes_the_constant_payload() {
    let a = update_main_rs("demo");
    match &a {
        Action::WriteMain { path, content } => {
            assert_eq!(path, "demo/src/main.rs");
            assert_eq!(content, MAIN_RS_PAYLOAD);
        }
        _ => panic!("expected the source step"),
    }
}

#[test]
fn source_payload_is_identical_across_names() {
    let a = update_main_rs("zebra42");
    let b = update_main_rs("quokka");
    assert_eq!(content_of(&a), content_of(&b));
    assert!(!content_of(&a).contains("zebra42"));
}

#[test]
fn plan_runs_the_generator_once_then_the_three_file_steps() {
    let plan = create_yew_app("demo");
    assert_eq!(plan.len(), 4);
    assert!(matches!(&plan[0], Action::CreateProject { .. }));
    assert!(matches!(&plan[1], Action::AppendManifest { .. }));
    assert!(matches!(&plan[2], Action::WriteHtml { .. }));
    assert!(matches!(&plan[3], Action::WriteMain { .. }));
    let generator_steps = plan
        .iter()
        .filter(|a| matches!(a, Action::CreateProject { .. }))
        .count();
    assert_eq!(generator_steps, 1);
    match &plan[0] {
        Action::CreateProject { name } => assert_eq!(name, "demo"),
        _ => unreachable!(),
    }
}

#[test]
fn each_step_has_its_own_diagnostic() {
    let plan = create_yew_app("demo");
    assert_eq!(plan[0].diagnostic(), "Failed to create new Cargo project");
    assert_eq!(plan[1].diagnostic(), "Failed to update Cargo.toml");
    assert_eq!(plan[2].diagnostic(), "Failed to add HTML file");
    assert_eq!(plan[3].diagnostic(), "Failed to update main.rs");
}

#[test]
fn run_walks_the_whole_plan_on_success() {
    let mut run = Scaffolder::new("demo");
    let mut seen: Vec<String> = Vec::new();
    while let Some(action) = run.next_action() {
        seen.push(action.diagnostic());
        run.advance(true);
    }
    assert_eq!(seen.len(), 4);
    assert_eq!(seen[0], "Failed to create new Cargo project");
    assert_eq!(seen[3], "Failed to update main.rs");
}

#[test]
fn failed_manifest_append_halts_before_any_write() {
    let mut run = Scaffolder::new("demo");

    let first = run.next_action().expect("the generator step");
    assert!(matches!(first, Action::CreateProject { .. }));
    run.advance(true);

    let second = run.next_action().expect("the manifest step");
    assert!(matches!(second, Action::AppendManifest { .. }));
    assert_eq!(second.diagnostic(), "Failed to update Cargo.toml");
    run.advance(false);

    assert!(run.next_action().is_none());
}
