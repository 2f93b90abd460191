use planetscale_mcp::extension::{
    asset_name, binary_path, context_server_command, find_asset, is_stale_entry,
    local_server_command, missing_asset_message, version_dir, HostArch, HostOs, MinimalExtension,
    PlanetScaleContextServerSettings,
};
use planetscale_mcp::slash_commands::{
    list_branches_command, list_dbs_command, query_command, schema_command,
};

fn pairs(env: &[(String, String)]) -> Vec<(&str, &str)> {
    env.iter().map(|(k, v)| (k.as_str(), v.as_str())).collect()
}

#[test]
fn server_command_with_all_variables() {
    let settings = PlanetScaleContextServerSettings {
        organization: Some("acme".to_string()),
        database: Some("shop".to_string()),
    };
    let cmd = context_server_command(
        "pscale-1.2/pscale".to_string(),
        Some("/home/u".to_string()),
        Some("/bin".to_string()),
        Some("/home/u/.config".to_string()),
        settings,
    );
    assert_eq!(cmd.command, "pscale-1.2/pscale");
    assert_eq!(cmd.args, vec!["mcp".to_string(), "server".to_string()]);
    assert_eq!(
        pairs(&cmd.env),
        vec![
            ("HOME", "/home/u"),
            ("PATH", "/bin"),
            ("XDG_CONFIG_HOME", "/home/u/.config"),
            ("PLANETSCALE_ORG", "acme"),
            ("PLANETSCALE_DATABASE", "shop"),
        ]
    );
}

#[test]
fn server_command_skips_absent_variables() {
    let settings = PlanetScaleContextServerSettings { organization: None, database: Some("db".to_string()) };
    let cmd = context_server_command("p".to_string(), None, Some("/usr/bin".to_string()), None, settings);
    assert_eq!(pairs(&cmd.env), vec![("PATH", "/usr/bin"), ("PLANETSCALE_DATABASE", "db")]);
}

#[test]
fn release_asset_names() {
    assert_eq!(
        asset_name("0.200.0", HostOs::Mac, HostArch::Aarch64),
        Ok("pscale_0.200.0_darwin_arm64.tar.gz".to_string())
    );
    assert_eq!(
        asset_name("1.0", HostOs::Linux, HostArch::X86),
        Ok("pscale_1.0_linux_386.tar.gz".to_string())
    );
    assert_eq!(
        asset_name("1.0", HostOs::Linux, HostArch::X8664),
        Ok("pscale_1.0_linux_amd64.tar.gz".to_string())
    );
    assert_eq!(
        asset_name("1.0", HostOs::Windows, HostArch::X8664),
        Err("Windows is not supported".to_string())
    );
}

#[test]
fn release_paths() {
    assert_eq!(version_dir("0.1.2"), "pscale-0.1.2");
    assert_eq!(binary_path("0.1.2"), "pscale-0.1.2/pscale");
}

#[test]
fn asset_lookup() {
    let names = vec!["a.zip".to_string(), "b.tar.gz".to_string(), "b.tar.gz".to_string()];
    assert_eq!(find_asset(&names, "b.tar.gz"), Some(1));
    assert_eq!(find_asset(&names, "c"), None);
    assert_eq!(find_asset(&Vec::new(), "c"), None);
}

#[test]
fn missing_asset_is_quoted() {
    assert_eq!(
        missing_asset_message("pscale_1.0_linux_amd64.tar.gz"),
        "no asset found matching \"pscale_1.0_linux_amd64.tar.gz\""
    );
}

#[test]
fn stale_entries() {
    assert!(!is_stale_entry(Some("pscale-1.0"), "pscale-1.0"));
    assert!(is_stale_entry(Some("pscale-0.9"), "pscale-1.0"));
    assert!(is_stale_entry(None, "pscale-1.0"));
}

#[test]
fn bundled_server_command() {
    let ok = local_server_command("planetscale", Ok("/ext/planetscale-context-server".to_string()));
    let cmd = ok.expect("the bundled server starts");
    assert_eq!(cmd.command, "/ext/planetscale-context-server");
    assert!(cmd.args.is_empty());
    assert!(cmd.env.is_empty());
    assert_eq!(
        local_server_command("other", Ok("/x".to_string())),
        Err("Unknown context server: other".to_string())
    );
    assert_eq!(
        local_server_command("planetscale", Err("Failed to get parent directory".to_string())),
        Err("Failed to get parent directory".to_string())
    );
}

#[test]
fn minimal_extension_server() {
    let ext = MinimalExtension::new();
    let config = ext.context_server_configuration();
    assert_eq!(config.name, "minimal-context-server");
    assert_eq!(config.slash_command, "/minimal");
    assert_eq!(config.command.command, "npx");
    assert_eq!(config.command.args, vec!["@modelcontextprotocol/example".to_string()]);
}

#[test]
fn slash_commands() {
    assert_eq!(list_dbs_command().name, "ps-list-dbs");
    assert!(list_dbs_command().documentation.contains("/ps-list-dbs\n```"));
    assert_eq!(list_branches_command().name, "ps-list-branches");
    assert!(list_branches_command().documentation.contains("- `database`: The name of the database"));
    assert_eq!(schema_command().name, "ps-schema");
    assert!(schema_command().documentation.contains("/ps-schema <database> <branch>"));
    assert_eq!(query_command().name, "ps-query");
    assert!(query_command().documentation.ends_with("- `query`: The SQL query to execute\n"));
}
