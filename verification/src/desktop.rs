//! What the desktop application decides on its own: its windows, where it
//! keeps its files, and what kind of project a local directory holds.
use vstd::prelude::*;
use crate::json::{Json, JsonV, json_parse, lemma_object_view, parse_json_text, lookup, member_position, member_views};
use crate::registration::texts;
use crate::text::{contains_text, lowercase_of, occurs_in, owned, str_eq, to_lowercase};

verus! {

/// The application's windows.
pub enum Window {
    Main,
}

impl Window {
    /// The label under which the window is configured.
    pub fn as_str(&self) -> (r: &'static str)
        ensures
            match self {
                Window::Main => r@ == "main"@,
            },
    {
        proof { reveal_strlit("main"); }
        match self {
            Window::Main => "main",
        }
    }
}

/// Where the core keeps its database and finds the proxy server's binary.
pub struct MCPCoreOptions {
    pub database_path: String,
    pub proxy_server_sidecar_path: String,
}

/// Whether a file named `name` is among `present`.
pub open spec fn has_file(present: Seq<String>, name: Seq<char>) -> bool {
    texts(present).contains(name)
}

fn has_file_named(present: &Vec<String>, name: &str) -> (r: bool)
    ensures
        r == has_file(present@, name@),
{
    let mut i: usize = 0;
    while i < present.len()
        invariant
            i <= present@.len(),
            forall|k: int| 0 <= k < i ==> present@[k]@ != name@,
        decreases present@.len() - i,
    {
        if str_eq(present[i].as_str(), name) {
            assert(texts(present@)[i as int] == name@);
            return true;
        }
        i = i + 1;
    }
    assert forall|k: int| 0 <= k < texts(present@).len() implies #[trigger] texts(present@)[k] != name@ by {
        assert(texts(present@)[k] == present@[k]@);
    }
    false
}

/// The project file of a Python project.
pub fn pyproject_name() -> (r: &'static str)
    ensures
        r@ == "pyproject.toml"@,
{
    proof { reveal_strlit("pyproject.toml"); }
    "pyproject.toml"
}

/// The project file of a Node.js project.
pub fn package_json_name() -> (r: &'static str)
    ensures
        r@ == "package.json"@,
{
    proof { reveal_strlit("package.json"); }
    "package.json"
}

/// Whether (lowercased) `pyproject.toml` text marks a project that `uv` runs.
pub open spec fn uv_markers(lower: Seq<char>) -> bool {
    occurs_in("uv"@, lower) || occurs_in("requires-python"@, lower) || occurs_in("build-system"@, lower)
}

/// Whether a directory holding the files `present` is a `uv` project, given
/// the text of its `pyproject.toml` (`None` when it could not be read): it
/// has a `uv.lock`, or a `pyproject.toml` that could not be read or whose
/// lowercased text holds one of the markers.
pub open spec fn is_uv_project(present: Seq<String>, pyproject: Option<Seq<char>>) -> bool {
    has_file(present, "uv.lock"@) || (has_file(present, "pyproject.toml"@) && match pyproject {
        None => true,
        Some(c) => uv_markers(lowercase_of(c)),
    })
}

/// Decides whether a directory is a `uv` project.
pub fn check_uv_project(present: &Vec<String>, pyproject: Option<String>) -> (r: bool)
    ensures
        r == is_uv_project(present@, match pyproject { Some(c) => Some(c@), None => None }),
{
    proof {
        reveal_strlit("uv.lock");
        reveal_strlit("pyproject.toml");
        reveal_strlit("uv");
        reveal_strlit("requires-python");
        reveal_strlit("build-system");
    }
    if has_file_named(present, "uv.lock") {
        return true;
    }
    if has_file_named(present, "pyproject.toml") {
        match pyproject {
            None => true,
            Some(c) => {
                let lower = to_lowercase(c.as_str());
                contains_text(lower.as_str(), "uv") || contains_text(lower.as_str(), "requires-python")
                    || contains_text(lower.as_str(), "build-system")
            }
        }
    } else {
        false
    }
}

/// The preferred script among a `package.json`'s scripts.
pub open spec fn start_script(scripts: Seq<(Seq<char>, JsonV)>) -> Option<Seq<char>> {
    if lookup(scripts, "start"@) is Some {
        Some("start"@)
    } else if lookup(scripts, "serve"@) is Some {
        Some("serve"@)
    } else if lookup(scripts, "dev"@) is Some {
        Some("dev"@)
    } else if lookup(scripts, "run"@) is Some {
        Some("run"@)
    } else {
        None
    }
}

/// The command that starts a Node.js project from its `package.json`
/// (`None` when it could not be read or parsed).
pub open spec fn package_command(package_json: Option<JsonV>) -> Seq<char> {
    match package_json {
        None => "node"@,
        Some(v) => match v.field("scripts"@) {
            Some(JsonV::Object(m)) => match start_script(m) {
                Some(s) => "npm run "@ + s,
                None => if m.len() > 0 { "npm start"@ } else { "node"@ },
            },
            _ => "node"@,
        },
    }
}

/// The command that starts the Node.js project in a directory holding the
/// files `present`, if it is one: a `package.json` decides; else a lock
/// file of a Node.js package manager means `node`.
pub open spec fn node_command(present: Seq<String>, package_json: Option<JsonV>) -> Option<Seq<char>> {
    if has_file(present, "package.json"@) {
        Some(package_command(package_json))
    } else if has_file(present, "package-lock.json"@) || has_file(present, "yarn.lock"@)
        || has_file(present, "pnpm-lock.yaml"@) || has_file(present, "bun.lockb"@) {
        Some("node"@)
    } else {
        None
    }
}

fn has_member(m: &Vec<(String, Json)>, key: &str) -> (r: bool)
    ensures
        r == (lookup(member_views(m@), key@) is Some),
{
    match member_position(m, key) {
        Some(i) => true,
        None => false,
    }
}

fn package_start(package_json: Option<Json>) -> (r: String)
    ensures
        r@ == package_command(match package_json { Some(v) => Some(v.view()), None => None }),
{
    proof {
        reveal_strlit("node");
        reveal_strlit("scripts");
        reveal_strlit("start");
        reveal_strlit("serve");
        reveal_strlit("dev");
        reveal_strlit("run");
        reveal_strlit("npm run start");
        reveal_strlit("npm run serve");
        reveal_strlit("npm run dev");
        reveal_strlit("npm run run");
        reveal_strlit("npm run ");
        reveal_strlit("npm start");
    }
    match package_json {
        None => owned("node"),
        Some(v) => match v.get("scripts") {
            Some(Json::Object(m)) => {
                proof { lemma_object_view(*m); }
                if has_member(m, "start") {
                    owned("npm run start")
                } else if has_member(m, "serve") {
                    owned("npm run serve")
                } else if has_member(m, "dev") {
                    owned("npm run dev")
                } else if has_member(m, "run") {
                    owned("npm run run")
                } else if m.len() > 0 {
                    owned("npm start")
                } else {
                    owned("node")
                }
            }
            _ => owned("node"),
        },
    }
}

/// Decides how to start the Node.js project in a directory, if it is one.
pub fn check_node_project(present: &Vec<String>, package_json: Option<Json>) -> (r: Option<String>)
    ensures
        match node_command(present@, match package_json { Some(v) => Some(v.view()), None => None }) {
            Some(c) => r is Some && r->0@ == c,
            None => r is None,
        },
{
    proof {
        reveal_strlit("package.json");
        reveal_strlit("package-lock.json");
        reveal_strlit("yarn.lock");
        reveal_strlit("pnpm-lock.yaml");
        reveal_strlit("bun.lockb");
        reveal_strlit("node");
    }
    if has_file_named(present, "package.json") {
        Some(package_start(package_json))
    } else if has_file_named(present, "package-lock.json") || has_file_named(present, "yarn.lock")
        || has_file_named(present, "pnpm-lock.yaml") || has_file_named(present, "bun.lockb") {
        Some(owned("node"))
    } else {
        None
    }
}

/// Decides how to start the Node.js project in a directory, given the text
/// of its `package.json` where it could be read: text that is no JSON is
/// taken as no `package.json` content.
pub fn check_node_project_text(present: &Vec<String>, package_json: Option<&str>) -> (r: Option<String>)
    ensures
        match node_command(present@, match package_json {
            Some(t) => match json_parse(t@) { Ok(v) => Some(v), Err(_) => None },
            None => None,
        }) {
            Some(c) => r is Some && r->0@ == c,
            None => r is None,
        },
{
    let parsed = match package_json {
        Some(t) => match parse_json_text(t) {
            Ok(v) => Some(v),
            Err(_) => None,
        },
        None => None,
    };
    check_node_project(present, parsed)
}

/// The command that starts the Docker project in a directory holding the
/// files `present`, if it is one: a compose file comes first, then a
/// Dockerfile.
pub open spec fn docker_command(present: Seq<String>) -> Option<Seq<char>> {
    if has_file(present, "docker-compose.yml"@) || has_file(present, "docker-compose.yaml"@)
        || has_file(present, "compose.yml"@) || has_file(present, "compose.yaml"@) {
        Some("docker-compose up"@)
    } else if has_file(present, "Dockerfile"@) || has_file(present, "dockerfile"@) {
        Some("docker run"@)
    } else {
        None
    }
}

/// Decides how to start the Docker project in a directory, if it is one.
pub fn check_docker_project(present: &Vec<String>) -> (r: Option<String>)
    ensures
        match docker_command(present@) {
            Some(c) => r is Some && r->0@ == c,
            None => r is None,
        },
{
    proof {
        reveal_strlit("docker-compose.yml");
        reveal_strlit("docker-compose.yaml");
        reveal_strlit("compose.yml");
        reveal_strlit("compose.yaml");
        reveal_strlit("Dockerfile");
        reveal_strlit("dockerfile");
        reveal_strlit("docker-compose up");
        reveal_strlit("docker run");
    }
    if has_file_named(present, "docker-compose.yml") || has_file_named(present, "docker-compose.yaml")
        || has_file_named(present, "compose.yml") || has_file_named(present, "compose.yaml") {
        Some(owned("docker-compose up"))
    } else if has_file_named(present, "Dockerfile") || has_file_named(present, "dockerfile") {
        Some(owned("docker run"))
    } else {
        None
    }
}


/// What the tray menu asks for.
pub enum TrayAction {
    ShowMainWindow,
    Quit,
    CheckForUpdates,
}

/// The action of a tray menu item, by the item's identifier; unknown items
/// do nothing.
pub fn tray_action(id: &str) -> (r: Option<TrayAction>)
    ensures
        id@ == "show"@ ==> (r matches Some(TrayAction::ShowMainWindow)),
        id@ == "quit"@ ==> (r matches Some(TrayAction::Quit)),
        id@ == "check_for_updates"@ ==> (r matches Some(TrayAction::CheckForUpdates)),
        id@ != "show"@ && id@ != "quit"@ && id@ != "check_for_updates"@ ==> r is None,
{
    proof {
        reveal_strlit("show");
        reveal_strlit("quit");
        reveal_strlit("check_for_updates");
        assert("show"@[0] != "quit"@[0]);
    }
    if str_eq(id, "show") {
        Some(TrayAction::ShowMainWindow)
    } else if str_eq(id, "quit") {
        Some(TrayAction::Quit)
    } else if str_eq(id, "check_for_updates") {
        Some(TrayAction::CheckForUpdates)
    } else {
        None
    }
}

/// A dialog shown about updates.
pub struct UpdateDialog {
    pub title: String,
    pub message: String,
    /// Whether the dialog asks to install (with Install and Later buttons).
    pub offers_install: bool,
}

/// The dialog shown after checking for updates: an offer to install the
/// available version; when none is available, a note that the application is
/// up to date if one was asked for, else nothing.
pub fn update_dialog(available: Option<&str>, show_when_up_to_date: bool) -> (r: Option<UpdateDialog>)
    ensures
        match available {
            Some(v) => r is Some && r->0.offers_install && r->0.title@ == "New Update Available v"@ + v@
                && r->0.message@ == "Would you like to install it? This will restart the application to apply the update."@,
            None => if show_when_up_to_date {
                r is Some && !r->0.offers_install && r->0.title@ == "No Updates Available"@
                    && r->0.message@ == "You're running the latest version."@
            } else {
                r is None
            },
        },
{
    proof {
        reveal_strlit("New Update Available v");
        reveal_strlit("Would you like to install it? This will restart the application to apply the update.");
        reveal_strlit("No Updates Available");
        reveal_strlit("You're running the latest version.");
    }
    match available {
        Some(v) => Some(UpdateDialog {
            title: crate::text::join2("New Update Available v", v),
            message: owned("Would you like to install it? This will restart the application to apply the update."),
            offers_install: true,
        }),
        None => if show_when_up_to_date {
            Some(UpdateDialog {
                title: owned("No Updates Available"),
                message: owned("You're running the latest version."),
                offers_install: false,
            })
        } else {
            None
        },
    }
}

/// Where the proxy server's binary is found.
pub enum SidecarPlan {
    /// Beside the application's executable, under this file name.
    BesideExecutable(String),
    /// Copied into the application's data directory under `file_name`, with
    /// the version of the copy kept in `version_file`.
    CopyToAppData { file_name: String, version_file: String },
    /// Not on this operating system: the error to report.
    Unsupported(String),
}

/// Where the proxy server's binary is found on operating system `os`.
pub fn sidecar_plan(os: &str) -> (r: SidecarPlan)
    ensures
        os@ == "windows"@ ==> (r matches SidecarPlan::BesideExecutable(f) && f@ == "mcp-proxy-server.exe"@),
        os@ == "macos"@ ==> (r matches SidecarPlan::BesideExecutable(f) && f@ == "mcp-proxy-server"@),
        os@ == "linux"@ ==> (r matches SidecarPlan::CopyToAppData { file_name, version_file }
            && file_name@ == "mcp-proxy-server"@ && version_file@ == "mcp-proxy-server.version"@),
        os@ != "windows"@ && os@ != "macos"@ && os@ != "linux"@ ==> (r matches SidecarPlan::Unsupported(e)
            && e@ == "failed to get proxy server sidecar path"@),
{
    proof {
        reveal_strlit("windows");
        reveal_strlit("macos");
        reveal_strlit("linux");
        reveal_strlit("mcp-proxy-server.exe");
        reveal_strlit("mcp-proxy-server");
        reveal_strlit("mcp-proxy-server.version");
        reveal_strlit("failed to get proxy server sidecar path");
        assert("macos"@[0] != "linux"@[0]);
    }
    if str_eq(os, "windows") {
        SidecarPlan::BesideExecutable(owned("mcp-proxy-server.exe"))
    } else if str_eq(os, "macos") {
        SidecarPlan::BesideExecutable(owned("mcp-proxy-server"))
    } else if str_eq(os, "linux") {
        SidecarPlan::CopyToAppData { file_name: owned("mcp-proxy-server"), version_file: owned("mcp-proxy-server.version") }
    } else {
        SidecarPlan::Unsupported(owned("failed to get proxy server sidecar path"))
    }
}

/// Whether the copy of the proxy server in the data directory can be used
/// as it is: it exists and its recorded version (`None` when the record
/// could not be read) is the application's.
pub fn sidecar_copy_is_current(copy_exists: bool, recorded_version: Option<&str>, app_version: &str) -> (r: bool)
    ensures
        r == (copy_exists && match recorded_version {
            Some(v) => v@ == app_version@,
            None => "failed reading mcp proxy server version"@ == app_version@,
        }),
{
    let recorded = match recorded_version {
        Some(v) => owned(v),
        None => owned("failed reading mcp proxy server version"),
    };
    copy_exists && str_eq(recorded.as_str(), app_version)
}

} // verus!
