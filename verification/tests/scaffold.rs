use detaxine_ui::scaffold::{
    app_path, app_ssr_text, cargo_config_dir, cargo_config_path, cargo_config_ssr_text, lib_path,
    lib_ssr_text, main_path, main_ssr_text, main_text, manifest_path, manifest_ssr_text,
    manifest_text, project_path,
};

fn expected_manifest(name: &str) -> String {
    let crate_ident = name.replace('-', "_");
    let _ = &crate_ident;
    format!(
        r#"[package]
name = "{name}"
version = "0.1.0"
edition = "2024"
[dependencies]
detaxine-ui = "0.8.60"
leptos = {{ version = "0.8.20", features = ["csr"] }}
leptos_meta = "0.8.6"
"#
    )
}

fn expected_manifest_ssr(name: &str) -> String {
    let crate_ident = name.replace('-', "_");
    let _ = &crate_ident;
    format!(
        r#"[package]
name = "{name}"
version = "0.1.0"
edition = "2024"

[lib]
crate-type = ["cdylib", "rlib"]

[dependencies]
detaxine-ui = {{ version = "0.8.60", default-features = false }}
leptos = "0.8.20"
leptos_router = "0.8.14"
leptos_meta = "0.8.6"
axum = {{ version = "0.8.9", optional = true }}
console_error_panic_hook = {{ version = "0.1", optional = true }}
leptos_axum = {{ version = "0.8.10", optional = true }}
tokio = {{ version = "1", features = ["rt-multi-thread"], optional = true }}
wasm-bindgen = {{ version = "0.2.126", optional = true }}

[features]
hydrate = [
    "leptos/hydrate",
    "dep:console_error_panic_hook",
    "dep:wasm-bindgen",
    "detaxine-ui/hydrate",
]
ssr = [
    "dep:axum",
    "dep:tokio",
    "dep:leptos_axum",
    "leptos/ssr",
    "leptos_meta/ssr",
    "leptos_router/ssr",
    "detaxine-ui/ssr",
]

[profile.wasm-release]
inherits = "release"
opt-level = 'z'
lto = true
codegen-units = 1
panic = "abort"

[package.metadata.leptos]
output-name = "{crate_ident}"
site-root = "target/site"
site-pkg-dir = "pkg"
tailwind-input-file = "styles/input.css"
assets-dir = "public"
site-addr = "127.0.0.1:3000"
reload-port = 3001
browserquery = "defaults"
env = "DEV"
bin-features = ["ssr"]
bin-default-features = false
lib-features = ["hydrate"]
lib-default-features = false
lib-profile-release = "wasm-release"
"#
    )
}

fn expected_main() -> String {
    r#"use leptos::prelude::*;
use leptos_meta::{MetaTags, Stylesheet, Title, provide_meta_context};
use detaxine_ui::{
    components::{
        actions::button::{BasicButton, ButtonGroup},
        forms::toggle_switch::ToggleSwitch,
    },
    icondata::{AiCheckCircleOutlined, BsXCircle},
};
use detaxine_ui::stacks::z_stack::provide_z_stack;

#[component]
fn App() -> impl IntoView {
    provide_z_stack();
    provide_meta_context();

    view! {
        <Stylesheet id="leptos" href="/style/output.css"/>
        <h1>"Hello from detaxine-ui!"</h1>
        <ButtonGroup style_ext="font-bold bg-primary text-white hover:bg-secondary">
            <BasicButton
                button_text="First"
                icon=Some(AiCheckCircleOutlined)
                icon_before=true
            />
            <BasicButton
                button_text="Second"
                icon=Some(BsXCircle)
                icon_before=false
            />
            <BasicButton
                button_text="Third"
                disabled=true
            />
        </ButtonGroup>
        <ToggleSwitch
           initial_active_state=true
           label_active="Enabled"
           label_inactive="Disabled"
           name="status"
        />
    }
}
fn main() {
    mount_to_body(App)
}
"#.to_string()
}

fn expected_main_ssr(name: &str) -> String {
    let crate_ident = name.replace('-', "_");
    let _ = &crate_ident;
    format!(
        r#"#[cfg(feature = "ssr")]
#[tokio::main]
async fn main() {{
    use axum::Router;
    use leptos::logging::log;
    use leptos::prelude::*;
    use leptos_axum::{{generate_route_list, LeptosRoutes}};
    use {crate_ident}::app::*;

    let conf = get_configuration(None).unwrap();
    let addr = conf.leptos_options.site_addr;
    let leptos_options = conf.leptos_options;
    let routes = generate_route_list(App);

    let app = Router::new()
        .leptos_routes(&leptos_options, routes, {{
            let leptos_options = leptos_options.clone();
            move || shell(leptos_options.clone())
        }})
        .fallback(leptos_axum::file_and_error_handler(shell))
        .with_state(leptos_options);

    log!("listening on http://{{}}", &addr);
    let listener = tokio::net::TcpListener::bind(&addr).await.unwrap();
    axum::serve(listener, app.into_make_service())
        .await
        .unwrap();
}}

#[cfg(not(feature = "ssr"))]
pub fn main() {{
    // no client-side main function; see lib.rs for the hydrate entry point
}}
"#
    )
}

fn expected_lib_ssr() -> String {
    r#"pub mod app;

#[cfg(feature = "hydrate")]
#[wasm_bindgen::prelude::wasm_bindgen]
pub fn hydrate() {
    use crate::app::*;
    console_error_panic_hook::set_once();
    leptos::mount::hydrate_body(App);
}
"#.to_string()
}

fn expected_app_ssr(name: &str) -> String {
    let crate_ident = name.replace('-', "_");
    let _ = &crate_ident;
    format!(
        r#"use leptos::prelude::*;
use leptos_meta::{{MetaTags, Stylesheet, Title, provide_meta_context}};
use leptos_router::{{
    StaticSegment,
    components::{{Route, Router, Routes}},
}};
use detaxine_ui::{{
    components::{{
        actions::button::{{BasicButton, ButtonGroup}},
        forms::toggle_switch::ToggleSwitch,
    }},
    icondata::{{AiCheckCircleOutlined, BsXCircle}},
}};
use detaxine_ui::stacks::z_stack::provide_z_stack;

pub fn shell(options: LeptosOptions) -> impl IntoView {{
    view! {{
        <!DOCTYPE html>
        <html lang="en">
            <head>
                <meta charset="utf-8"/>
                <meta name="viewport" content="width=device-width, initial-scale=1"/>
                <AutoReload options=options.clone() />
                <HydrationScripts options/>
                <MetaTags/>
            </head>
            <body>
                <App/>
            </body>
        </html>
    }}
}}

#[component]
pub fn App() -> impl IntoView {{
    provide_meta_context();
    provide_z_stack();

    view! {{
        <Stylesheet id="leptos" href="/pkg/{crate_ident}.css"/>
        <Title text="detaxine-ui"/>
        <div id="modal-root"></div>
        <Router>
            <main>
                <Routes fallback=|| "Page not found.".into_view()>
                    <Route path=StaticSegment("") view=HomePage/>
                </Routes>
            </main>
        </Router>
    }}
}}

#[component]
fn HomePage() -> impl IntoView {{
    view! {{
        <h1>"Hello from detaxine-ui!"</h1>
        <ButtonGroup style_ext="font-bold bg-primary text-white hover:bg-secondary">
            <BasicButton
                button_text="First"
                icon=Some(AiCheckCircleOutlined)
                icon_before=true
            />
            <BasicButton
                button_text="Second"
                icon=Some(BsXCircle)
                icon_before=false
            />
            <BasicButton
                button_text="Third"
                disabled=true
            />
        </ButtonGroup>
        <ToggleSwitch
           initial_active_state=true
           label_active="Enabled"
           label_inactive="Disabled"
           name="status"
        />
    }}
}}
"#
    )
}

fn expected_cargo_config() -> String {
    r#"[env]
LEPTOS_TAILWIND_VERSION = "v4.3.2"
"#.to_string()
}


#[test]
fn manifest_matches_template() {
    for name in ["demo", "my-app", ""] {
        assert_eq!(manifest_text(name), expected_manifest(name));
    }
}

#[test]
fn manifest_names_the_package() {
    assert!(manifest_text("my-app").starts_with("[package]\nname = \"my-app\"\n"));
}

#[test]
fn manifest_ssr_matches_template() {
    for name in ["demo", "my-app", "a-b-c"] {
        assert_eq!(manifest_ssr_text(name), expected_manifest_ssr(name));
    }
}

#[test]
fn manifest_ssr_output_name_is_crate_ident() {
    let text = manifest_ssr_text("my-app");
    assert!(text.contains("output-name = \"my_app\""));
    assert!(text.contains("name = \"my-app\""));
}

#[test]
fn main_matches_template() {
    assert_eq!(main_text(), expected_main());
}

#[test]
fn main_ssr_matches_template() {
    for name in ["demo", "my-app"] {
        assert_eq!(main_ssr_text(name), expected_main_ssr(name));
    }
    assert!(main_ssr_text("my-app").contains("use my_app::app::*;"));
}

#[test]
fn lib_ssr_matches_template() {
    assert_eq!(lib_ssr_text(), expected_lib_ssr());
}

#[test]
fn app_ssr_matches_template() {
    for name in ["demo", "my-app"] {
        assert_eq!(app_ssr_text(name), expected_app_ssr(name));
    }
    assert!(app_ssr_text("my-app").contains("href=\"/pkg/my_app.css\""));
}

#[test]
fn cargo_config_matches_template() {
    assert_eq!(cargo_config_ssr_text(), expected_cargo_config());
}

#[test]
fn paths_inside_project() {
    assert_eq!(project_path("p", "x"), "p/x");
    assert_eq!(manifest_path("my-app"), "my-app/Cargo.toml");
    assert_eq!(main_path("my-app"), "my-app/src/main.rs");
    assert_eq!(lib_path("my-app"), "my-app/src/lib.rs");
    assert_eq!(app_path("my-app"), "my-app/src/app.rs");
    assert_eq!(cargo_config_dir("my-app"), "my-app/.cargo");
    assert_eq!(cargo_config_path("my-app"), "my-app/.cargo/config.toml");
}
