use wakatime_ls::install::{
    executable_name, is_stale_release, release_layout, sanitize_path, server_args,
    target_triple, tool_name, Architecture, Os, Tool,
};

#[test]
fn triples_for_each_tool() {
    assert_eq!(
        target_triple(Tool::WakatimeCli, Os::Linux, Architecture::X8664).unwrap(),
        "wakatime-cli-linux-amd64"
    );
    assert_eq!(
        target_triple(Tool::WakatimeLs, Os::Linux, Architecture::X8664).unwrap(),
        "wakatime-ls-x86_64-unknown-linux-gnu"
    );
    assert_eq!(
        target_triple(Tool::WakatimeCli, Os::Mac, Architecture::Aarch64).unwrap(),
        "wakatime-cli-darwin-arm64"
    );
    assert_eq!(
        target_triple(Tool::WakatimeLs, Os::Windows, Architecture::Aarch64).unwrap(),
        "wakatime-ls-aarch64-pc-windows-msvc"
    );
    assert_eq!(
        target_triple(Tool::WakatimeLs, Os::Mac, Architecture::X86),
        Err("unsupported architecture: X86".to_string())
    );
}

#[test]
fn executable_names_per_os() {
    assert_eq!(executable_name("wakatime-ls", Os::Windows), "wakatime-ls.exe");
    assert_eq!(executable_name("wakatime-ls", Os::Linux), "wakatime-ls");
    assert_eq!(tool_name(Tool::WakatimeCli), "wakatime-cli");
}

#[test]
fn sanitize_strips_leading_slashes_on_windows_only() {
    assert_eq!(sanitize_path("//C:/x/y", Os::Windows), "C:/x/y");
    assert_eq!(sanitize_path("/C:/x", Os::Mac), "/C:/x");
    assert_eq!(sanitize_path("", Os::Windows), "");
}

#[test]
fn release_layouts() {
    let cli = release_layout(Tool::WakatimeCli, "v1.2.3", Os::Windows, Architecture::X8664).unwrap();
    assert_eq!(cli.asset_name, "wakatime-cli-windows-amd64.zip");
    assert_eq!(cli.version_dir, "wakatime-cli-v1.2.3");
    assert_eq!(cli.binary_name, "wakatime-cli-windows-amd64.exe");
    let ls = release_layout(Tool::WakatimeLs, "v0.1.0", Os::Linux, Architecture::Aarch64).unwrap();
    assert_eq!(ls.asset_name, "wakatime-ls-aarch64-unknown-linux-gnu.zip");
    assert_eq!(ls.version_dir, "wakatime-ls-v0.1.0");
    assert_eq!(ls.binary_name, "wakatime-ls");
    assert!(release_layout(Tool::WakatimeLs, "v0.1.0", Os::Linux, Architecture::X86).is_err());
}

#[test]
fn stale_release_entries() {
    let dir = "wakatime-cli-v2".to_string();
    assert!(is_stale_release(Tool::WakatimeCli, "wakatime-cli-v1", &dir));
    assert!(!is_stale_release(Tool::WakatimeCli, "wakatime-cli-v2", &dir));
    assert!(!is_stale_release(Tool::WakatimeCli, "wakatime-ls-v1", &dir));
    assert!(!is_stale_release(Tool::WakatimeCli, "waka", &dir));
}

#[test]
fn server_arguments_point_at_cli() {
    let args = server_args("/work/wakatime-cli-v1/wakatime-cli-windows-amd64.exe", Os::Windows);
    assert_eq!(args, vec!["--wakatime-cli", "work/wakatime-cli-v1/wakatime-cli-windows-amd64.exe"]);
    let args = server_args("/work/cli", Os::Linux);
    assert_eq!(args, vec!["--wakatime-cli", "/work/cli"]);
}
