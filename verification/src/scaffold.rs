//! The scaffolding plan: the exact sequence of steps a run performs after
//! the command line named an application, with the exact path and contents
//! of every file each step touches.

use vstd::prelude::*;
use vstd::string::StringExecFns;

verus! {

/// One step of a scaffolding run. The shell performs each step in plan
/// order: it spawns the project generator for `CreateProject`, opens the
/// manifest in append mode for `AppendManifest`, and creates or truncates
/// the file for the two `Write` steps.
pub enum Action {
    /// Run the external project generator with the application name as its
    /// sole argument.
    CreateProject { name: String },
    /// Append `content` to the end of the file at `path`, which the
    /// generator must already have created.
    AppendManifest { path: String, content: String },
    /// Write `content` to the markup file at `path`, replacing whatever the
    /// generator put there.
    WriteHtml { path: String, content: String },
    /// Write `content` to the source entry file at `path`, replacing
    /// whatever the generator put there.
    WriteMain { path: String, content: String },
}

/// The manifest file of the generated project.
pub open spec fn manifest_path(name: Seq<char>) -> Seq<char> {
    name + "/Cargo.toml"@
}

/// The markup entry file of the generated project.
pub open spec fn html_path(name: Seq<char>) -> Seq<char> {
    name + "/index.html"@
}

/// The source entry file of the generated project.
pub open spec fn main_rs_path(name: Seq<char>) -> Seq<char> {
    name + "/src/main.rs"@
}

/// The first dependency line appended to the manifest.
pub open spec fn yew_line() -> Seq<char> {
    "yew = { version = \"0.21.0\", features = [\"csr\"] }\n"@
}

/// The second dependency line appended to the manifest.
pub open spec fn wasm_bindgen_line() -> Seq<char> {
    "wasm-bindgen = \"0.2\"\n"@
}

/// The third dependency line appended to the manifest.
pub open spec fn web_sys_line() -> Seq<char> {
    "web-sys = \"0.3\"\n"@
}

/// Everything a run appends to the manifest: the three dependency lines,
/// in this order, each newline-terminated. No part of it depends on the
/// application name.
pub open spec fn manifest_appendix() -> Seq<char> {
    yew_line() + wasm_bindgen_line() + web_sys_line()
}

/// The markup payload up to the script reference.
pub open spec fn html_head() -> Seq<char> {
    "\n<!DOCTYPE html>\n<html lang=\"en\">\n<head>\n    <meta charset=\"UTF-8\">\n    <meta name=\"viewport\" content=\"width=device-width, initial-scale=1.0\">\n    <title>Yew App</title>\n</head>\n<body>\n    <div id=\"app\"></div>\n    <script type=\"module\" src=\""@
}

/// The script file the markup refers to: a fixed placeholder, not derived
/// from the application name.
pub open spec fn html_script_src() -> Seq<char> {
    "/pkg/your_app_name.js"@
}

/// The markup payload after the script reference.
pub open spec fn html_tail() -> Seq<char> {
    "\"></script>\n</body>\n</html>\n"@
}

/// The whole markup payload. It is a constant: the application name does
/// not occur in it, and the script reference inside it is the fixed
/// placeholder.
pub open spec fn html_payload() -> Seq<char> {
    html_head() + html_script_src() + html_tail()
}

/// The whole source entry payload, a constant "Hello" component: the
/// application name does not occur in it.
pub open spec fn main_rs_payload() -> Seq<char> {
    "\nuse yew::prelude::*;\n\n#[function_component(App)]\npub fn app() -> Html {\n    html! {\n        <div>{ \"Hello, Yew!\" }</div>\n    }\n}\n\nfn main() {\n    yew::Renderer::<App>::new().render();}\n"@
}

/// `a` runs the project generator for `name`.
pub open spec fn is_create_project(a: Action, name: Seq<char>) -> bool {
    a matches Action::CreateProject { name: n } && n@ == name
}

/// `a` appends exactly the three dependency lines to `name`'s manifest.
pub open spec fn is_append_manifest(a: Action, name: Seq<char>) -> bool {
    a matches Action::AppendManifest { path, content } && path@ == manifest_path(name)
        && content@ == manifest_appendix()
}

/// `a` writes exactly the constant markup payload to `name`'s markup file.
pub open spec fn is_write_html(a: Action, name: Seq<char>) -> bool {
    a matches Action::WriteHtml { path, content } && path@ == html_path(name)
        && content@ == html_payload()
}

/// `a` writes exactly the constant source payload to `name`'s entry file.
pub open spec fn is_write_main(a: Action, name: Seq<char>) -> bool {
    a matches Action::WriteMain { path, content } && path@ == main_rs_path(name)
        && content@ == main_rs_payload()
}

/// The step that runs the external project generator for `name`.
pub fn create_new_project(name: &str) -> (a: Action)
    ensures
        is_create_project(a, name@),
{
    Action::CreateProject { name: String::from_str(name) }
}

/// The step that appends the three fixed dependency lines to the manifest
/// of the project named `name`.
pub fn update_cargo_toml(name: &str) -> (a: Action)
    ensures
        is_append_manifest(a, name@),
{
    let path = String::from_str(name).concat("/Cargo.toml");
    let content = String::from_str("yew = { version = \"0.21.0\", features = [\"csr\"] }\n")
        .concat("wasm-bindgen = \"0.2\"\n")
        .concat("web-sys = \"0.3\"\n");
    Action::AppendManifest { path, content }
}

/// The step that writes the constant markup payload into the project named
/// `name`.
pub fn add_html_file(name: &str) -> (a: Action)
    ensures
        is_write_html(a, name@),
{
    let path = String::from_str(name).concat("/index.html");
    let content = String::from_str(
        "\n<!DOCTYPE html>\n<html lang=\"en\">\n<head>\n    <meta charset=\"UTF-8\">\n    <meta name=\"viewport\" content=\"width=device-width, initial-scale=1.0\">\n    <title>Yew App</title>\n</head>\n<body>\n    <div id=\"app\"></div>\n    <script type=\"module\" src=\"",
    ).concat("/pkg/your_app_name.js").concat("\"></script>\n</body>\n</html>\n");
    Action::WriteHtml { path, content }
}

/// The step that writes the constant source entry payload into the project
/// named `name`.
pub fn update_main_rs(name: &str) -> (a: Action)
    ensures
        is_write_main(a, name@),
{
    let path = String::from_str(name).concat("/src/main.rs");
    let content = String::from_str(
        "\nuse yew::prelude::*;\n\n#[function_component(App)]\npub fn app() -> Html {\n    html! {\n        <div>{ \"Hello, Yew!\" }</div>\n    }\n}\n\nfn main() {\n    yew::Renderer::<App>::new().render();}\n",
    );
    Action::WriteMain { path, content }
}

/// `plan` is the full scaffolding plan for `name`: generate the project,
/// then append the manifest lines, then write the markup file, then write
/// the source entry file.
pub open spec fn is_plan_for(plan: Seq<Action>, name: Seq<char>) -> bool {
    &&& plan.len() == 4
    &&& is_create_project(plan[0], name)
    &&& is_append_manifest(plan[1], name)
    &&& is_write_html(plan[2], name)
    &&& is_write_main(plan[3], name)
}

/// The full scaffolding plan for the application named `app_name`.
pub fn create_yew_app(app_name: &str) -> (plan: Vec<Action>)
    ensures
        is_plan_for(plan@, app_name@),
{
    let mut plan: Vec<Action> = Vec::new();
    plan.push(create_new_project(app_name));
    plan.push(update_cargo_toml(app_name));
    plan.push(add_html_file(app_name));
    plan.push(update_main_rs(app_name));
    plan
}

/// The diagnostic the run aborts with when this step's file or process
/// operation fails.
pub open spec fn diagnostic_of(a: Action) -> Seq<char> {
    match a {
        Action::CreateProject { .. } => "Failed to create new Cargo project"@,
        Action::AppendManifest { .. } => "Failed to update Cargo.toml"@,
        Action::WriteHtml { .. } => "Failed to add HTML file"@,
        Action::WriteMain { .. } => "Failed to update main.rs"@,
    }
}

impl Action {
    /// The diagnostic for a failure of this step.
    pub fn diagnostic(&self) -> (m: String)
        ensures
            m@ == diagnostic_of(*self),
    {
        match self {
            Action::CreateProject { .. } => String::from_str("Failed to create new Cargo project"),
            Action::AppendManifest { .. } => String::from_str("Failed to update Cargo.toml"),
            Action::WriteHtml { .. } => String::from_str("Failed to add HTML file"),
            Action::WriteMain { .. } => String::from_str("Failed to update main.rs"),
        }
    }
}

/// A scaffolding run in progress: the plan, how far it has got, and
/// whether a step has failed.
pub struct Scaffolder {
    plan: Vec<Action>,
    next: usize,
    failed: bool,
}

impl Scaffolder {
    /// The plan the run performs.
    pub closed spec fn actions(&self) -> Seq<Action> {
        self.plan@
    }

    /// How many steps have completed.
    pub closed spec fn cursor(&self) -> int {
        self.next as int
    }

    /// Whether a step has been reported failed.
    pub closed spec fn has_failed(&self) -> bool {
        self.failed
    }

    pub open spec fn wf(&self) -> bool {
        0 <= self.cursor() <= self.actions().len()
    }

    /// A fresh run for the application named `app_name`.
    pub fn new(app_name: &str) -> (s: Self)
        ensures
            s.wf(),
            !s.has_failed(),
            s.cursor() == 0,
            is_plan_for(s.actions(), app_name@),
    {
        Scaffolder { plan: create_yew_app(app_name), next: 0, failed: false }
    }

    /// The next step to perform, or `None` when the run is over: either
    /// every step is done, or a step failed and the rest were abandoned.
    /// In particular, once a step has failed, no later file is ever
    /// touched.
    pub fn next_action(&self) -> (r: Option<&Action>)
        requires
            self.wf(),
        ensures
            (r is Some) == (!self.has_failed() && self.cursor() < self.actions().len()),
            r matches Some(a) ==> *a == self.actions()[self.cursor()],
    {
        if self.failed || self.next >= self.plan.len() {
            None
        } else {
            Some(&self.plan[self.next])
        }
    }

    /// Record the outcome of the step `next_action` gave: on success the
    /// run moves to the following step, on failure it halts for good.
    pub fn advance(&mut self, ok: bool)
        requires
            old(self).wf(),
            !old(self).has_failed(),
            old(self).cursor() < old(self).actions().len(),
        ensures
            final(self).wf(),
            final(self).actions() == old(self).actions(),
            final(self).has_failed() == !ok,
            final(self).cursor() == (if ok {
                old(self).cursor() + 1
            } else {
                old(self).cursor()
            }),
    {
        if ok {
            proof {
                broadcast use vstd::std_specs::vec::axiom_spec_len;

                assert(self.plan.len() == self.plan@.len());
            }
            self.next += 1;
        } else {
            self.failed = true;
        }
    }
}

/// The file contents a step carries; the generator step carries none.
pub open spec fn action_content(a: Action) -> Seq<char> {
    match a {
        Action::CreateProject { .. } => Seq::empty(),
        Action::AppendManifest { content, .. } => content@,
        Action::WriteHtml { content, .. } => content@,
        Action::WriteMain { content, .. } => content@,
    }
}

/// The dependency lines appended to the manifest are the same for any two
/// application names.
pub proof fn lemma_manifest_independent_of_name(
    a1: Action,
    n1: Seq<char>,
    a2: Action,
    n2: Seq<char>,
)
    requires
        is_append_manifest(a1, n1),
        is_append_manifest(a2, n2),
    ensures
        action_content(a1) == action_content(a2),
{
}

/// The markup payload is byte-identical for any two application names.
pub proof fn lemma_html_independent_of_name(a1: Action, n1: Seq<char>, a2: Action, n2: Seq<char>)
    requires
        is_write_html(a1, n1),
        is_write_html(a2, n2),
    ensures
        action_content(a1) == action_content(a2),
{
}

/// The source entry payload is byte-identical for any two application
/// names: no name substitution occurs.
pub proof fn lemma_main_rs_independent_of_name(a1: Action, n1: Seq<char>, a2: Action, n2: Seq<char>)
    requires
        is_write_main(a1, n1),
        is_write_main(a2, n2),
    ensures
        action_content(a1) == action_content(a2),
{
}

/// `s` is one line of text: non-empty, newline-terminated, with no
/// newline anywhere else.
pub open spec fn single_line(s: Seq<char>) -> bool {
    &&& s.len() > 0
    &&& s.last() == '\n'
    &&& forall|i: int| 0 <= i < s.len() - 1 ==> s[i] != '\n'
}

/// What a run appends to the manifest is exactly three newline-terminated
/// lines: the yew, wasm-bindgen and web-sys declarations, in this order,
/// whatever the application name.
pub proof fn lemma_manifest_appendix_three_lines()
    ensures
        manifest_appendix() == yew_line() + wasm_bindgen_line() + web_sys_line(),
        single_line(yew_line()),
        single_line(wasm_bindgen_line()),
        single_line(web_sys_line()),
{
    reveal_strlit("yew = { version = \"0.21.0\", features = [\"csr\"] }\n");
    reveal_strlit("wasm-bindgen = \"0.2\"\n");
    reveal_strlit("web-sys = \"0.3\"\n");
    assert(single_line(yew_line())) by {
        assert forall|i: int| 0 <= i < yew_line().len() - 1 implies yew_line()[i] != '\n' by {
            assert(yew_line().len() == 49);
        }
    }
    assert(single_line(wasm_bindgen_line())) by {
        assert forall|i: int|
            0 <= i < wasm_bindgen_line().len() - 1 implies wasm_bindgen_line()[i] != '\n' by {
            assert(wasm_bindgen_line().len() == 21);
        }
    }
    assert(single_line(web_sys_line())) by {
        assert forall|i: int|
            0 <= i < web_sys_line().len() - 1 implies web_sys_line()[i] != '\n' by {
            assert(web_sys_line().len() == 16);
        }
    }
}

/// The markup payload carries the placeholder script reference: right
/// after the head of the payload comes the placeholder, character for
/// character.
pub proof fn lemma_html_refers_to_placeholder()
    ensures
        html_payload().subrange(
            html_head().len() as int,
            html_head().len() + html_script_src().len() as int,
        ) == html_script_src(),
{
    assert(html_payload().subrange(
        html_head().len() as int,
        html_head().len() + html_script_src().len() as int,
    ) =~= html_script_src());
}

/// The placeholder script reference never names the application: for every
/// name other than the placeholder's own stem, it differs from
/// `/pkg/<name>.js`.
pub proof fn lemma_placeholder_never_names_app(name: Seq<char>)
    requires
        name != "your_app_name"@,
    ensures
        html_script_src() != "/pkg/"@ + name + ".js"@,
{
    reveal_strlit("/pkg/your_app_name.js");
    reveal_strlit("/pkg/");
    reveal_strlit(".js");
    reveal_strlit("your_app_name");
    let cat = "/pkg/"@ + name + ".js"@;
    if html_script_src() == cat {
        assert("/pkg/"@.len() == 5);
        assert(".js"@.len() == 3);
        assert(html_script_src().len() == 21);
        assert(cat.len() == 8 + name.len());
        assert(name.len() == 13);
        assert(name =~= "your_app_name"@) by {
            assert forall|i: int| 0 <= i < 13 implies name[i] == "your_app_name"@[i] by {
                assert(cat[5 + i] == name[i]);
                assert(html_script_src()[5 + i] == "your_app_name"@[i]);
            }
        }
        assert(false);
    }
}

} // verus!
