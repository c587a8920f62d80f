//! The files that the project scaffolder writes into a new project, and
//! where it writes them.

use vstd::prelude::*;
use vstd::string::*;
use crate::text::{crate_ident, crate_ident_spec};

verus! {

/// The client-side manifest up to the package name.
pub const MANIFEST_HEAD: &'static str = "[package]\nname = \"";

/// The client-side manifest after the package name.
pub const MANIFEST_TAIL: &'static str = "\"\nversion = \"0.1.0\"\nedition = \"2024\"\n[dependencies]\ndetaxine-ui = \"0.8.60\"\nleptos = { version = \"0.8.20\", features = [\"csr\"] }\nleptos_meta = \"0.8.6\"\n";

/// The server-side manifest up to the package name.
pub const SSR_MANIFEST_HEAD: &'static str = "[package]\nname = \"";

/// The server-side manifest between the package name and the crate identifier (`output-name`).
pub const SSR_MANIFEST_MIDDLE: &'static str = "\"\nversion = \"0.1.0\"\nedition = \"2024\"\n\n[lib]\ncrate-type = [\"cdylib\", \"rlib\"]\n\n[dependencies]\ndetaxine-ui = { version = \"0.8.60\", default-features = false }\nleptos = \"0.8.20\"\nleptos_router = \"0.8.14\"\nleptos_meta = \"0.8.6\"\naxum = { version = \"0.8.9\", optional = true }\nconsole_error_panic_hook = { version = \"0.1\", optional = true }\nleptos_axum = { version = \"0.8.10\", optional = true }\ntokio = { version = \"1\", features = [\"rt-multi-thread\"], optional = true }\nwasm-bindgen = { version = \"0.2.126\", optional = true }\n\n[features]\nhydrate = [\n    \"leptos/hydrate\",\n    \"dep:console_error_panic_hook\",\n    \"dep:wasm-bindgen\",\n    \"detaxine-ui/hydrate\",\n]\nssr = [\n    \"dep:axum\",\n    \"dep:tokio\",\n    \"dep:leptos_axum\",\n    \"leptos/ssr\",\n    \"leptos_meta/ssr\",\n    \"leptos_router/ssr\",\n    \"detaxine-ui/ssr\",\n]\n\n[profile.wasm-release]\ninherits = \"release\"\nopt-level = 'z'\nlto = true\ncodegen-units = 1\npanic = \"abort\"\n\n[package.metadata.leptos]\noutput-name = \"";

/// The server-side manifest after the crate identifier.
pub const SSR_MANIFEST_TAIL: &'static str = "\"\nsite-root = \"target/site\"\nsite-pkg-dir = \"pkg\"\ntailwind-input-file = \"styles/input.css\"\nassets-dir = \"public\"\nsite-addr = \"127.0.0.1:3000\"\nreload-port = 3001\nbrowserquery = \"defaults\"\nenv = \"DEV\"\nbin-features = [\"ssr\"]\nbin-default-features = false\nlib-features = [\"hydrate\"]\nlib-default-features = false\nlib-profile-release = \"wasm-release\"\n";

/// The client-side `src/main.rs`.
pub const MAIN_TEXT: &'static str = "use leptos::prelude::*;\nuse leptos_meta::{MetaTags, Stylesheet, Title, provide_meta_context};\nuse detaxine_ui::{\n    components::{\n        actions::button::{BasicButton, ButtonGroup},\n        forms::toggle_switch::ToggleSwitch,\n    },\n    icondata::{AiCheckCircleOutlined, BsXCircle},\n};\nuse detaxine_ui::stacks::z_stack::provide_z_stack;\n\n#[component]\nfn App() -> impl IntoView {\n    provide_z_stack();\n    provide_meta_context();\n\n    view! {\n        <Stylesheet id=\"leptos\" href=\"/style/output.css\"/>\n        <h1>\"Hello from detaxine-ui!\"</h1>\n        <ButtonGroup style_ext=\"font-bold bg-primary text-white hover:bg-secondary\">\n            <BasicButton\n                button_text=\"First\"\n                icon=Some(AiCheckCircleOutlined)\n                icon_before=true\n            />\n            <BasicButton\n                button_text=\"Second\"\n                icon=Some(BsXCircle)\n                icon_before=false\n            />\n            <BasicButton\n                button_text=\"Third\"\n                disabled=true\n            />\n        </ButtonGroup>\n        <ToggleSwitch\n           initial_active_state=true\n           label_active=\"Enabled\"\n           label_inactive=\"Disabled\"\n           name=\"status\"\n        />\n    }\n}\nfn main() {\n    mount_to_body(App)\n}\n";

/// The server-side `src/main.rs` up to the crate identifier.
pub const SSR_MAIN_HEAD: &'static str = "#[cfg(feature = \"ssr\")]\n#[tokio::main]\nasync fn main() {\n    use axum::Router;\n    use leptos::logging::log;\n    use leptos::prelude::*;\n    use leptos_axum::{generate_route_list, LeptosRoutes};\n    use ";

/// The server-side `src/main.rs` after the crate identifier.
pub const SSR_MAIN_TAIL: &'static str = "::app::*;\n\n    let conf = get_configuration(None).unwrap();\n    let addr = conf.leptos_options.site_addr;\n    let leptos_options = conf.leptos_options;\n    let routes = generate_route_list(App);\n\n    let app = Router::new()\n        .leptos_routes(&leptos_options, routes, {\n            let leptos_options = leptos_options.clone();\n            move || shell(leptos_options.clone())\n        })\n        .fallback(leptos_axum::file_and_error_handler(shell))\n        .with_state(leptos_options);\n\n    log!(\"listening on http://{}\", &addr);\n    let listener = tokio::net::TcpListener::bind(&addr).await.unwrap();\n    axum::serve(listener, app.into_make_service())\n        .await\n        .unwrap();\n}\n\n#[cfg(not(feature = \"ssr\"))]\npub fn main() {\n    // no client-side main function; see lib.rs for the hydrate entry point\n}\n";

/// The server-side `src/lib.rs`.
pub const SSR_LIB_TEXT: &'static str = "pub mod app;\n\n#[cfg(feature = \"hydrate\")]\n#[wasm_bindgen::prelude::wasm_bindgen]\npub fn hydrate() {\n    use crate::app::*;\n    console_error_panic_hook::set_once();\n    leptos::mount::hydrate_body(App);\n}\n";

/// The server-side `src/app.rs` up to the crate identifier.
pub const SSR_APP_HEAD: &'static str = "use leptos::prelude::*;\nuse leptos_meta::{MetaTags, Stylesheet, Title, provide_meta_context};\nuse leptos_router::{\n    StaticSegment,\n    components::{Route, Router, Routes},\n};\nuse detaxine_ui::{\n    components::{\n        actions::button::{BasicButton, ButtonGroup},\n        forms::toggle_switch::ToggleSwitch,\n    },\n    icondata::{AiCheckCircleOutlined, BsXCircle},\n};\nuse detaxine_ui::stacks::z_stack::provide_z_stack;\n\npub fn shell(options: LeptosOptions) -> impl IntoView {\n    view! {\n        <!DOCTYPE html>\n        <html lang=\"en\">\n            <head>\n                <meta charset=\"utf-8\"/>\n                <meta name=\"viewport\" content=\"width=device-width, initial-scale=1\"/>\n                <AutoReload options=options.clone() />\n                <HydrationScripts options/>\n                <MetaTags/>\n            </head>\n            <body>\n                <App/>\n            </body>\n        </html>\n    }\n}\n\n#[component]\npub fn App() -> impl IntoView {\n    provide_meta_context();\n    provide_z_stack();\n\n    view! {\n        <Stylesheet id=\"leptos\" href=\"/pkg/";

/// The server-side `src/app.rs` after the crate identifier.
pub const SSR_APP_TAIL: &'static str = ".css\"/>\n        <Title text=\"detaxine-ui\"/>\n        <div id=\"modal-root\"></div>\n        <Router>\n            <main>\n                <Routes fallback=|| \"Page not found.\".into_view()>\n                    <Route path=StaticSegment(\"\") view=HomePage/>\n                </Routes>\n            </main>\n        </Router>\n    }\n}\n\n#[component]\nfn HomePage() -> impl IntoView {\n    view! {\n        <h1>\"Hello from detaxine-ui!\"</h1>\n        <ButtonGroup style_ext=\"font-bold bg-primary text-white hover:bg-secondary\">\n            <BasicButton\n                button_text=\"First\"\n                icon=Some(AiCheckCircleOutlined)\n                icon_before=true\n            />\n            <BasicButton\n                button_text=\"Second\"\n                icon=Some(BsXCircle)\n                icon_before=false\n            />\n            <BasicButton\n                button_text=\"Third\"\n                disabled=true\n            />\n        </ButtonGroup>\n        <ToggleSwitch\n           initial_active_state=true\n           label_active=\"Enabled\"\n           label_inactive=\"Disabled\"\n           name=\"status\"\n        />\n    }\n}\n";

/// The `.cargo/config.toml` of a server-side project.
pub const CARGO_CONFIG_TEXT: &'static str = "[env]\nLEPTOS_TAILWIND_VERSION = \"v4.3.2\"\n";

/// `project/relative`: a path inside the project directory.
pub open spec fn project_path_spec(project: Seq<char>, relative: Seq<char>) -> Seq<char> {
    project + seq!['/'] + relative
}

/// Returns the path `project/relative`.
pub fn project_path(project: &str, relative: &str) -> (path: String)
    ensures
        path@ == project_path_spec(project@, relative@),
{
    let mut path = String::from_str(project);
    path.append("/");
    proof {
        reveal_strlit("/");
    }
    path.append(relative);
    path
}

/// The manifest of the project: `project/Cargo.toml`.
pub fn manifest_path(project: &str) -> (path: String)
    ensures
        path@ == project_path_spec(project@, "Cargo.toml"@),
{
    project_path(project, "Cargo.toml")
}

/// The binary's entry point: `project/src/main.rs`.
pub fn main_path(project: &str) -> (path: String)
    ensures
        path@ == project_path_spec(project@, "src/main.rs"@),
{
    project_path(project, "src/main.rs")
}

/// The library root: `project/src/lib.rs`.
pub fn lib_path(project: &str) -> (path: String)
    ensures
        path@ == project_path_spec(project@, "src/lib.rs"@),
{
    project_path(project, "src/lib.rs")
}

/// The application module: `project/src/app.rs`.
pub fn app_path(project: &str) -> (path: String)
    ensures
        path@ == project_path_spec(project@, "src/app.rs"@),
{
    project_path(project, "src/app.rs")
}

/// The Cargo configuration directory: `project/.cargo`.
pub fn cargo_config_dir(project: &str) -> (path: String)
    ensures
        path@ == project_path_spec(project@, ".cargo"@),
{
    project_path(project, ".cargo")
}

/// The Cargo configuration file: `project/.cargo/config.toml`.
pub fn cargo_config_path(project: &str) -> (path: String)
    ensures
        path@ == project_path_spec(project@, ".cargo/config.toml"@),
{
    project_path(project, ".cargo/config.toml")
}

/// The client-side manifest of the package `name`.
pub open spec fn manifest_spec(name: Seq<char>) -> Seq<char> {
    MANIFEST_HEAD@ + name + MANIFEST_TAIL@
}

/// The server-side manifest of the package `name`; the site's output is
/// named by the crate identifier of `name`.
pub open spec fn manifest_ssr_spec(name: Seq<char>) -> Seq<char> {
    SSR_MANIFEST_HEAD@ + name + SSR_MANIFEST_MIDDLE@ + crate_ident_spec(name) + SSR_MANIFEST_TAIL@
}

/// The server-side `src/main.rs` of the package `name`, which imports the
/// application through the crate identifier of `name`.
pub open spec fn main_ssr_spec(name: Seq<char>) -> Seq<char> {
    SSR_MAIN_HEAD@ + crate_ident_spec(name) + SSR_MAIN_TAIL@
}

/// The server-side `src/app.rs` of the package `name`, whose stylesheet is
/// named by the crate identifier of `name`.
pub open spec fn app_ssr_spec(name: Seq<char>) -> Seq<char> {
    SSR_APP_HEAD@ + crate_ident_spec(name) + SSR_APP_TAIL@
}

/// The client-side manifest of the package `name`.
pub fn manifest_text(name: &str) -> (text: String)
    ensures
        text@ == manifest_spec(name@),
{
    let mut text = String::from_str(MANIFEST_HEAD);
    text.append(name);
    text.append(MANIFEST_TAIL);
    text
}

/// The server-side manifest of the package `name`.
pub fn manifest_ssr_text(name: &str) -> (text: String)
    ensures
        text@ == manifest_ssr_spec(name@),
{
    let ident = crate_ident(name);
    let mut text = String::from_str(SSR_MANIFEST_HEAD);
    text.append(name);
    text.append(SSR_MANIFEST_MIDDLE);
    text.append(ident.as_str());
    text.append(SSR_MANIFEST_TAIL);
    text
}

/// The client-side `src/main.rs`.
pub fn main_text() -> (text: &'static str)
    ensures
        text@ == MAIN_TEXT@,
{
    MAIN_TEXT
}

/// The server-side `src/main.rs` of the package `name`.
pub fn main_ssr_text(name: &str) -> (text: String)
    ensures
        text@ == main_ssr_spec(name@),
{
    let ident = crate_ident(name);
    let mut text = String::from_str(SSR_MAIN_HEAD);
    text.append(ident.as_str());
    text.append(SSR_MAIN_TAIL);
    text
}

/// The server-side `src/lib.rs`.
pub fn lib_ssr_text() -> (text: &'static str)
    ensures
        text@ == SSR_LIB_TEXT@,
{
    SSR_LIB_TEXT
}

/// The server-side `src/app.rs` of the package `name`.
pub fn app_ssr_text(name: &str) -> (text: String)
    ensures
        text@ == app_ssr_spec(name@),
{
    let ident = crate_ident(name);
    let mut text = String::from_str(SSR_APP_HEAD);
    text.append(ident.as_str());
    text.append(SSR_APP_TAIL);
    text
}

/// The `.cargo/config.toml` of a server-side project.
pub fn cargo_config_ssr_text() -> (text: &'static str)
    ensures
        text@ == CARGO_CONFIG_TEXT@,
{
    CARGO_CONFIG_TEXT
}

/// Whether `t` holds, from `start` on, the package name `name` with each
/// `-` written as `_` and every other character as it is.
pub open spec fn spells_ident_at(t: Seq<char>, start: int, name: Seq<char>) -> bool {
    &&& 0 <= start
    &&& start + name.len() <= t.len()
    &&& forall|i: int|
        0 <= i < name.len() ==> #[trigger] t[start + i] == (if name[i] == '-' {
            '_'
        } else {
            name[i]
        })
}

proof fn lemma_ident_spelled(head: Seq<char>, name: Seq<char>, tail: Seq<char>)
    ensures
        spells_ident_at(head + crate_ident_spec(name) + tail, head.len() as int, name),
        !(head + crate_ident_spec(name) + tail).subrange(head.len() as int, (head.len() as int) + name.len()).contains('-'),
        (head + crate_ident_spec(name) + tail).subrange(head.len() as int, (head.len() as int) + name.len())
            == crate_ident_spec(name),
{
    let t = head + crate_ident_spec(name) + tail;
    assert forall|i: int| 0 <= i < name.len() implies #[trigger] t[(head.len() as int) + i] == (if name[i] == '-' {
        '_'
    } else {
        name[i]
    }) by {
        assert(t[(head.len() as int) + i] == crate_ident_spec(name)[i]);
    }
    assert(t.subrange(head.len() as int, (head.len() as int) + name.len()) =~= crate_ident_spec(name));
}

/// The server-side manifest names the package `name` as it is, and names
/// the site's output by the crate identifier: `name` with every `-` as `_`.
pub proof fn lemma_manifest_ssr_names(name: Seq<char>)
    ensures
        manifest_ssr_spec(name).subrange(
            SSR_MANIFEST_HEAD@.len() as int,
            (SSR_MANIFEST_HEAD@.len() as int) + name.len(),
        ) == name,
        spells_ident_at(
            manifest_ssr_spec(name),
            (SSR_MANIFEST_HEAD@.len() as int) + name.len() + (SSR_MANIFEST_MIDDLE@.len() as int),
            name,
        ),
{
    let head = SSR_MANIFEST_HEAD@ + name + SSR_MANIFEST_MIDDLE@;
    assert(manifest_ssr_spec(name) == head + crate_ident_spec(name) + SSR_MANIFEST_TAIL@);
    lemma_ident_spelled(head, name, SSR_MANIFEST_TAIL@);
    assert(manifest_ssr_spec(name).subrange(SSR_MANIFEST_HEAD@.len() as int, (SSR_MANIFEST_HEAD@.len() as int) + name.len())
        =~= name);
}

/// The server-side `src/main.rs` is its fixed head, the crate identifier of
/// `name` (every `-` written as `_`, so it holds no `-`), and its fixed
/// tail; the identifier is the one the server-side manifest gives as the
/// output name.
pub proof fn lemma_main_ssr_ident(name: Seq<char>)
    ensures
        main_ssr_spec(name).len() == (SSR_MAIN_HEAD@.len() as int) + name.len() + (SSR_MAIN_TAIL@.len() as int),
        main_ssr_spec(name).subrange(0, SSR_MAIN_HEAD@.len() as int) == SSR_MAIN_HEAD@,
        main_ssr_spec(name).subrange(
            (SSR_MAIN_HEAD@.len() as int) + name.len(),
            main_ssr_spec(name).len() as int,
        ) == SSR_MAIN_TAIL@,
        spells_ident_at(main_ssr_spec(name), SSR_MAIN_HEAD@.len() as int, name),
        !main_ssr_spec(name).subrange(SSR_MAIN_HEAD@.len() as int, (SSR_MAIN_HEAD@.len() as int) + name.len()).contains('-'),
        main_ssr_spec(name).subrange(SSR_MAIN_HEAD@.len() as int, (SSR_MAIN_HEAD@.len() as int) + name.len())
            == manifest_ssr_spec(name).subrange(
            (SSR_MANIFEST_HEAD@.len() as int) + name.len() + (SSR_MANIFEST_MIDDLE@.len() as int),
            (SSR_MANIFEST_HEAD@.len() as int) + name.len() + (SSR_MANIFEST_MIDDLE@.len() as int) + name.len(),
        ),
{
    let t = main_ssr_spec(name);
    lemma_ident_spelled(SSR_MAIN_HEAD@, name, SSR_MAIN_TAIL@);
    assert(t.subrange(0, SSR_MAIN_HEAD@.len() as int) =~= SSR_MAIN_HEAD@);
    assert(t.subrange((SSR_MAIN_HEAD@.len() as int) + name.len(), t.len() as int) =~= SSR_MAIN_TAIL@);
    let head = SSR_MANIFEST_HEAD@ + name + SSR_MANIFEST_MIDDLE@;
    assert(manifest_ssr_spec(name) == head + crate_ident_spec(name) + SSR_MANIFEST_TAIL@);
    lemma_ident_spelled(head, name, SSR_MANIFEST_TAIL@);
}

/// The server-side `src/app.rs` is its fixed head, the crate identifier of
/// `name` (every `-` written as `_`, so it holds no `-`), and its fixed
/// tail; the stylesheet it names is the server-side manifest's output name.
pub proof fn lemma_app_ssr_ident(name: Seq<char>)
    ensures
        app_ssr_spec(name).len() == (SSR_APP_HEAD@.len() as int) + name.len() + (SSR_APP_TAIL@.len() as int),
        app_ssr_spec(name).subrange(0, SSR_APP_HEAD@.len() as int) == SSR_APP_HEAD@,
        app_ssr_spec(name).subrange((SSR_APP_HEAD@.len() as int) + name.len(), app_ssr_spec(name).len() as int)
            == SSR_APP_TAIL@,
        spells_ident_at(app_ssr_spec(name), SSR_APP_HEAD@.len() as int, name),
        !app_ssr_spec(name).subrange(SSR_APP_HEAD@.len() as int, (SSR_APP_HEAD@.len() as int) + name.len()).contains('-'),
        app_ssr_spec(name).subrange(SSR_APP_HEAD@.len() as int, (SSR_APP_HEAD@.len() as int) + name.len())
            == manifest_ssr_spec(name).subrange(
            (SSR_MANIFEST_HEAD@.len() as int) + name.len() + (SSR_MANIFEST_MIDDLE@.len() as int),
            (SSR_MANIFEST_HEAD@.len() as int) + name.len() + (SSR_MANIFEST_MIDDLE@.len() as int) + name.len(),
        ),
{
    let t = app_ssr_spec(name);
    lemma_ident_spelled(SSR_APP_HEAD@, name, SSR_APP_TAIL@);
    assert(t.subrange(0, SSR_APP_HEAD@.len() as int) =~= SSR_APP_HEAD@);
    assert(t.subrange((SSR_APP_HEAD@.len() as int) + name.len(), t.len() as int) =~= SSR_APP_TAIL@);
    let head = SSR_MANIFEST_HEAD@ + name + SSR_MANIFEST_MIDDLE@;
    assert(manifest_ssr_spec(name) == head + crate_ident_spec(name) + SSR_MANIFEST_TAIL@);
    lemma_ident_spelled(head, name, SSR_MANIFEST_TAIL@);
}

} // verus!
