use onyx_core::install::{
    get_default_install_dir, get_download_url, get_opencode_binary_path, InstallProgress,
};
use onyx_core::vault::{
    is_embeddable_extension, validate_vault_path, AppSettings, AssetEntry, FileEntry, FileStats,
    PlatformInfo, SearchMatch, SearchResult,
};

#[test]
fn path_inside_vault_is_accepted() {
    let r = validate_vault_path("/home/u/vault/notes/a.md", "/home/u/vault");
    assert_eq!(r, Ok("/home/u/vault/notes/a.md".to_string()));
}

#[test]
fn vault_root_itself_is_accepted() {
    let r = validate_vault_path("/home/u/vault", "/home/u/vault");
    assert_eq!(r, Ok("/home/u/vault".to_string()));
}

#[test]
fn path_outside_vault_is_denied() {
    let r = validate_vault_path("/etc/passwd", "/home/u/vault");
    assert_eq!(
        r,
        Err("Access denied: path '/etc/passwd' is outside the vault directory".to_string())
    );
}

#[test]
fn sibling_with_common_prefix_is_denied() {
    // "/home/u/vault2" shares a string prefix with the vault but is a
    // different directory: the boundary check must reject it.
    let r = validate_vault_path("/home/u/vault2/a.md", "/home/u/vault");
    assert!(r.is_err());
}

#[test]
fn vault_ending_in_slash_still_contains_its_files() {
    let r = validate_vault_path("/home/u/vault/a.md", "/home/u/vault/");
    assert!(r.is_ok());
    let r = validate_vault_path("/a.md", "/");
    assert!(r.is_ok());
}

#[test]
fn embeddable_extensions_ignore_ascii_case() {
    assert!(is_embeddable_extension("png"));
    assert!(is_embeddable_extension("PNG"));
    assert!(is_embeddable_extension("Mp4"));
    assert!(is_embeddable_extension("jpeg"));
    assert!(is_embeddable_extension("webm"));
    assert!(is_embeddable_extension("3gp"));
    assert!(is_embeddable_extension("pdf"));
    assert!(!is_embeddable_extension("txt"));
    assert!(!is_embeddable_extension("md"));
    assert!(!is_embeddable_extension(""));
    assert!(!is_embeddable_extension("pngg"));
}

#[test]
fn install_paths_follow_home_directory() {
    assert_eq!(
        get_default_install_dir(Some("/home/u")),
        "/home/u/.opencode/bin"
    );
    assert_eq!(get_default_install_dir(None), "/usr/local/bin");
    assert_eq!(
        get_opencode_binary_path(Some("/home/u")),
        "/home/u/.opencode/bin/opencode"
    );
    assert_eq!(get_opencode_binary_path(None), "/usr/local/bin/opencode");
}

#[test]
fn download_urls_cover_each_supported_platform() {
    assert_eq!(
        get_download_url("linux", "x86_64"),
        Ok(
            "https://github.com/anomalyco/opencode/releases/latest/download/opencode-linux-x64.tar.gz"
                .to_string()
        )
    );
    assert_eq!(
        get_download_url("linux", "aarch64"),
        Ok(
            "https://github.com/anomalyco/opencode/releases/latest/download/opencode-linux-arm64.tar.gz"
                .to_string()
        )
    );
    assert_eq!(
        get_download_url("macos", "aarch64"),
        Ok(
            "https://github.com/anomalyco/opencode/releases/latest/download/opencode-darwin-arm64.zip"
                .to_string()
        )
    );
    assert_eq!(
        get_download_url("macos", "x86_64"),
        Ok(
            "https://github.com/anomalyco/opencode/releases/latest/download/opencode-darwin-x64.zip"
                .to_string()
        )
    );
    assert_eq!(
        get_download_url("windows", "x86_64"),
        Ok(
            "https://github.com/anomalyco/opencode/releases/latest/download/opencode-windows-x64.zip"
                .to_string()
        )
    );
}

#[test]
fn unsupported_platforms_are_refused() {
    assert_eq!(
        get_download_url("windows", "aarch64"),
        Err("Unsupported platform".to_string())
    );
    assert_eq!(
        get_download_url("freebsd", "x86_64"),
        Err("Unsupported platform".to_string())
    );
    assert_eq!(
        get_download_url("", ""),
        Err("Unsupported platform".to_string())
    );
}

#[test]
fn default_settings_have_no_vault_and_hidden_terminal() {
    let s = AppSettings::default();
    assert!(s.vault_path.is_none());
    assert!(!s.show_terminal);
}

#[test]
fn data_shapes_hold_their_fields() {
    let stats = FileStats { size: 10, created: 1, modified: 2 };
    assert_eq!((stats.size, stats.created, stats.modified), (10, 1, 2));
    let m = SearchMatch { line: 3, content: "hit".to_string() };
    let r = SearchResult {
        path: "/v/a.md".to_string(),
        name: "a.md".to_string(),
        matches: vec![m],
    };
    assert_eq!(r.matches.len(), 1);
    assert_eq!(r.matches[0].line, 3);
    assert_eq!(r.matches[0].content, "hit");
    let child = FileEntry {
        name: "a.md".to_string(),
        path: "/v/d/a.md".to_string(),
        is_directory: false,
        children: None,
    };
    let dir = FileEntry {
        name: "d".to_string(),
        path: "/v/d".to_string(),
        is_directory: true,
        children: Some(vec![child]),
    };
    assert_eq!(dir.children.as_ref().unwrap()[0].name, "a.md");
    let asset = AssetEntry {
        name: "pic.PNG".to_string(),
        path: "/v/pic.PNG".to_string(),
        extension: "png".to_string(),
        relative_path: "pic.PNG".to_string(),
    };
    assert!(is_embeddable_extension(&asset.extension));
    let info = PlatformInfo {
        platform: "linux".to_string(),
        default_vault_path: Some("/home/u/Documents/Onyx".to_string()),
    };
    assert_eq!(info.platform, "linux");
    let progress = InstallProgress {
        stage: "downloading".to_string(),
        progress: 50,
        bytes_downloaded: Some(500_000),
        total_bytes: Some(1_000_000),
        message: "Downloading...".to_string(),
    };
    assert_eq!(progress.progress, 50);
}
