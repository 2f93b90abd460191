use vstd::prelude::*;
use crate::json::{same_text, text};

verus! {

/// The command that starts a context server, with its arguments and its
/// environment.
#[derive(Debug, PartialEq, Eq)]
pub struct ServerCommand {
    pub command: String,
    pub args: Vec<String>,
    pub env: Vec<(String, String)>,
}

/// The optional settings of the PlanetScale context server.
#[derive(Debug, PartialEq, Eq)]
pub struct PlanetScaleContextServerSettings {
    pub organization: Option<String>,
    pub database: Option<String>,
}

/// The operating systems a host can run.
#[derive(Clone, Copy, Debug, PartialEq, Eq)]
pub enum HostOs {
    Mac,
    Linux,
    Windows,
}

/// The processor architectures a host can have.
#[derive(Clone, Copy, Debug, PartialEq, Eq)]
pub enum HostArch {
    Aarch64,
    X86,
    X8664,
}

/// The name of the PlanetScale command-line tool.
pub const BINARY_NAME: &'static str = "pscale";

/// The GitHub repository that releases it.
pub const REPO_NAME: &'static str = "planetscale/cli";

/// The model of an environment.
pub open spec fn env_view(env: Seq<(String, String)>) -> Seq<(Seq<char>, Seq<char>)> {
    env.map_values(|v: (String, String)| (v.0@, v.1@))
}

/// The variable `name` set to `value` when there is one; nothing otherwise.
pub open spec fn optional_var(name: Seq<char>, value: Option<String>) -> Seq<(Seq<char>, Seq<char>)> {
    match value {
        Some(v) => seq![(name, v@)],
        None => seq![],
    }
}

/// The environment of the PlanetScale server: `HOME`, `PATH` and
/// `XDG_CONFIG_HOME` passed on where the host has them, then the organization
/// and the database of the settings where they are given.
pub open spec fn server_env_spec(
    home: Option<String>,
    path: Option<String>,
    xdg_config: Option<String>,
    settings: PlanetScaleContextServerSettings,
) -> Seq<(Seq<char>, Seq<char>)> {
    optional_var("HOME"@, home) + optional_var("PATH"@, path) + optional_var(
        "XDG_CONFIG_HOME"@,
        xdg_config,
    ) + optional_var("PLANETSCALE_ORG"@, settings.organization) + optional_var(
        "PLANETSCALE_DATABASE"@,
        settings.database,
    )
}

fn push_var(env: &mut Vec<(String, String)>, name: &str, value: Option<String>)
    ensures
        env_view(final(env)@) == env_view(old(env)@) + optional_var(name@, value),
{
    let ghost before = env@;
    match value {
        Some(v) => {
            let ghost model = v@;
            env.push((text(name), v));
            assert(env_view(env@) =~= env_view(before) + seq![(name@, model)]);
        },
        None => {
            assert(env_view(env@) =~= env_view(before) + seq![]);
        },
    }
}

/// The command that starts the PlanetScale server from the tool at
/// `binary_path`: `<binary_path> mcp server`, with its environment.
pub fn context_server_command(
    binary_path: String,
    home: Option<String>,
    path: Option<String>,
    xdg_config: Option<String>,
    settings: PlanetScaleContextServerSettings,
) -> (r: ServerCommand)
    ensures
        r.command@ == binary_path@,
        r.args@.len() == 2,
        r.args@[0]@ == "mcp"@,
        r.args@[1]@ == "server"@,
        env_view(r.env@) == server_env_spec(home, path, xdg_config, settings),
{
    let ghost model = server_env_spec(home, path, xdg_config, settings);
    let PlanetScaleContextServerSettings { organization, database } = settings;
    let mut env: Vec<(String, String)> = Vec::new();
    assert(env_view(env@) =~= seq![]);
    push_var(&mut env, "HOME", home);
    push_var(&mut env, "PATH", path);
    push_var(&mut env, "XDG_CONFIG_HOME", xdg_config);
    push_var(&mut env, "PLANETSCALE_ORG", organization);
    push_var(&mut env, "PLANETSCALE_DATABASE", database);
    assert(env_view(env@) =~= model);
    ServerCommand { command: binary_path, args: vec![text("mcp"), text("server")], env }
}

/// The name that a host gives its operating system in release assets;
/// `None` where no release is built for it.
pub open spec fn os_label(os: HostOs) -> Option<Seq<char>> {
    match os {
        HostOs::Mac => Some("darwin"@),
        HostOs::Linux => Some("linux"@),
        HostOs::Windows => None,
    }
}

/// The name that a host gives its architecture in release assets.
pub open spec fn arch_label(arch: HostArch) -> Seq<char> {
    match arch {
        HostArch::Aarch64 => "arm64"@,
        HostArch::X86 => "386"@,
        HostArch::X8664 => "amd64"@,
    }
}

/// The asset of release `version` that holds the tool for a host:
/// `pscale_<version>_<os>_<arch>.tar.gz`.
pub open spec fn asset_name_spec(version: Seq<char>, os: Seq<char>, arch: Seq<char>) -> Seq<char> {
    BINARY_NAME@ + "_"@ + version + "_"@ + os + "_"@ + arch + ".tar.gz"@
}

/// The name of the release asset for this host; an error on Windows, for
/// which no release is built.
pub fn asset_name(version: &str, os: HostOs, arch: HostArch) -> (r: Result<String, String>)
    ensures
        match os_label(os) {
            Some(label) => r is Ok && r->Ok_0@ == asset_name_spec(version@, label, arch_label(arch)),
            None => r is Err && r->Err_0@ == "Windows is not supported"@,
        },
{
    let os_name = match os {
        HostOs::Mac => "darwin",
        HostOs::Linux => "linux",
        HostOs::Windows => {
            return Err(text("Windows is not supported"));
        },
    };
    let arch_name = match arch {
        HostArch::Aarch64 => "arm64",
        HostArch::X86 => "386",
        HostArch::X8664 => "amd64",
    };
    Ok(
        text(BINARY_NAME).concat("_").concat(version).concat("_").concat(os_name).concat(
            "_",
        ).concat(arch_name).concat(".tar.gz"),
    )
}

/// The directory that holds release `version`: `pscale-<version>`.
pub fn version_dir(version: &str) -> (r: String)
    ensures
        r@ == BINARY_NAME@ + "-"@ + version@,
{
    text(BINARY_NAME).concat("-").concat(version)
}

/// Where the tool of release `version` lies: `pscale-<version>/pscale`.
pub fn binary_path(version: &str) -> (r: String)
    ensures
        r@ == BINARY_NAME@ + "-"@ + version@ + "/"@ + BINARY_NAME@,
{
    version_dir(version).concat("/").concat(BINARY_NAME)
}

/// The position of the first of `names` that is `wanted`; `None` when none is.
pub fn find_asset(names: &Vec<String>, wanted: &str) -> (r: Option<usize>)
    ensures
        match r {
            Some(i) => i < names@.len() && names@[i as int]@ == wanted@ && forall|j: int|
                0 <= j < i ==> (#[trigger] names@[j])@ != wanted@,
            None => forall|j: int| 0 <= j < names@.len() ==> (#[trigger] names@[j])@ != wanted@,
        },
{
    let mut i: usize = 0;
    while i < names.len()
        invariant
            i <= names@.len(),
            forall|j: int| 0 <= j < i ==> (#[trigger] names@[j])@ != wanted@,
        decreases names@.len() - i,
    {
        if same_text(names[i].as_str(), wanted) {
            return Some(i);
        }
        i = i + 1;
    }
    None
}

/// How Rust's `{:?}` writes a text: quoted, with special characters escaped.
pub uninterp spec fn debug_text_of(s: Seq<char>) -> Seq<char>;

/// Relies on the `Debug` formatting of `str`: its result depends on the
/// characters alone.
#[verifier::external_body]
fn debug_text(s: &str) -> (r: String)
    ensures
        r@ == debug_text_of(s@),
{
    format!("{:?}", s)
}

/// The error when a release has no asset for this host.
pub fn missing_asset_message(asset_name: &str) -> (r: String)
    ensures
        r@ == "no asset found matching "@ + debug_text_of(asset_name@),
{
    let quoted = debug_text(asset_name);
    text("no asset found matching ").concat(quoted.as_str())
}

/// Whether a directory entry is left from another release and goes: every
/// entry but the current release's directory, and every entry whose name is
/// no text.
pub fn is_stale_entry(entry_name: Option<&str>, current_dir: &str) -> (r: bool)
    ensures
        r == !(entry_name is Some && entry_name->0@ == current_dir@),
{
    match entry_name {
        Some(name) => !same_text(name, current_dir),
        None => true,
    }
}

/// The name of the context server that the bundled extension starts.
pub const LOCAL_SERVER_ID: &'static str = "planetscale";

/// The command that starts the bundled context server `server_id`, found at
/// `server_path`: an error for any other server, or where the path could not
/// be found.
pub fn local_server_command(server_id: &str, server_path: Result<String, String>) -> (r: Result<
    ServerCommand,
    String,
>)
    ensures
        server_id@ != LOCAL_SERVER_ID@ ==> r is Err && r->Err_0@ == "Unknown context server: "@
            + server_id@,
        server_id@ == LOCAL_SERVER_ID@ ==> match server_path {
            Ok(p) => r is Ok && r->Ok_0.command@ == p@ && r->Ok_0.args@.len() == 0
                && r->Ok_0.env@.len() == 0,
            Err(e) => r is Err && r->Err_0@ == e@,
        },
{
    if !same_text(server_id, LOCAL_SERVER_ID) {
        return Err(text("Unknown context server: ").concat(server_id));
    }
    match server_path {
        Ok(path) => Ok(ServerCommand { command: path, args: Vec::new(), env: Vec::new() }),
        Err(e) => Err(e),
    }
}

/// What the PlanetScale context server's setup page shows, in Markdown.
pub const INSTALLATION_INSTRUCTIONS: &'static str = r#"# PlanetScale MCP Server

Provides database access through the Model Context Protocol.

## Setup
1. Extension automatically downloads the PlanetScale CLI
2. Authenticate: `pscale auth login` (you'll need to do this in terminal)
"#;

/// The settings template offered for the PlanetScale context server.
pub const DEFAULT_SETTINGS: &'static str = r#"{
  "context_servers": {
    "planetscale-context-server": {
      "settings": {
        // optional params:
        // "organization": "your-org-name",
        // "database": "your-database-name"
      }
    }
  }
}"#;

/// A context server as the minimal extension describes it.
#[derive(Debug, PartialEq, Eq)]
pub struct ServerDescription {
    pub name: String,
    pub slash_command: String,
    pub description: String,
    pub command: ServerCommand,
}

/// An extension that offers one example context server.
pub struct MinimalExtension {}

impl MinimalExtension {
    pub fn new() -> (r: Self) {
        MinimalExtension {  }
    }

    /// The example server: `npx @modelcontextprotocol/example`, reached by
    /// `/minimal`.
    pub fn context_server_configuration(&self) -> (r: ServerDescription)
        ensures
            r.name@ == "minimal-context-server"@,
            r.slash_command@ == "/minimal"@,
            r.description@ == "A minimal context server example"@,
            r.command.command@ == "npx"@,
            r.command.args@.len() == 1,
            r.command.args@[0]@ == "@modelcontextprotocol/example"@,
            r.command.env@.len() == 0,
    {
        ServerDescription {
            name: text("minimal-context-server"),
            slash_command: text("/minimal"),
            description: text("A minimal context server example"),
            command: ServerCommand {
                command: text("npx"),
                args: vec![text("@modelcontextprotocol/example")],
                env: Vec::new(),
            },
        }
    }
}

} // verus!
