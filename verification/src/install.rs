use vstd::prelude::*;
use crate::text::str_eq;

verus! {

/// Progress report emitted while installing the server binary.
pub struct InstallProgress {
    /// Current stage: "checking", "downloading", "extracting",
    /// "configuring" or "complete".
    pub stage: String,
    /// Overall progress in percent.
    pub progress: u32,
    /// Bytes downloaded so far, during the download stage.
    pub bytes_downloaded: Option<u64>,
    /// Total bytes to download, when the server announced them.
    pub total_bytes: Option<u64>,
    /// Human-readable description of the current step.
    pub message: String,
}

/// The directory the server binary is installed into: `.opencode/bin`
/// under the given home directory, or the system-wide `/usr/local/bin`
/// when no home directory is known. The caller reads the home directory
/// from the environment.
pub fn get_default_install_dir(home: Option<&str>) -> (r: String)
    ensures
        (home matches Some(h) ==> r@ == h@ + "/.opencode/bin"@),
        home is None ==> r@ == "/usr/local/bin"@,
{
    match home {
        Some(h) => String::from_str(h).concat("/.opencode/bin"),
        None => String::from_str("/usr/local/bin"),
    }
}

/// Full path of the installed server binary: `opencode` under the
/// default install directory.
pub fn get_opencode_binary_path(home: Option<&str>) -> (r: String)
    ensures
        (home matches Some(h) ==> r@ == h@ + "/.opencode/bin"@ + "/opencode"@),
        home is None ==> r@ == "/usr/local/bin"@ + "/opencode"@,
{
    get_default_install_dir(home).concat("/opencode")
}

/// Whether a platform and CPU architecture pair has a published release
/// asset.
pub open spec fn supported_platform(platform: Seq<char>, arch: Seq<char>) -> bool {
    ||| (platform == "macos"@ && (arch == "aarch64"@ || arch == "x86_64"@))
    ||| (platform == "windows"@ && arch == "x86_64"@)
    ||| (platform == "linux"@ && (arch == "x86_64"@ || arch == "aarch64"@))
}

/// The download URL of the latest server release for a platform
/// ("macos", "windows" or "linux") and CPU architecture ("aarch64" or
/// "x86_64"); any other pair is unsupported.
pub fn get_download_url(platform: &str, arch: &str) -> (r: Result<String, String>)
    ensures
        r is Ok <==> supported_platform(platform@, arch@),
        (platform@ == "macos"@ && arch@ == "aarch64"@ ==> (r matches Ok(u) && u@
            == "https://github.com/anomalyco/opencode/releases/latest/download/opencode-darwin-arm64.zip"@)),
        (platform@ == "macos"@ && arch@ == "x86_64"@ ==> (r matches Ok(u) && u@
            == "https://github.com/anomalyco/opencode/releases/latest/download/opencode-darwin-x64.zip"@)),
        (platform@ == "windows"@ && arch@ == "x86_64"@ ==> (r matches Ok(u) && u@
            == "https://github.com/anomalyco/opencode/releases/latest/download/opencode-windows-x64.zip"@)),
        (platform@ == "linux"@ && arch@ == "x86_64"@ ==> (r matches Ok(u) && u@
            == "https://github.com/anomalyco/opencode/releases/latest/download/opencode-linux-x64.tar.gz"@)),
        (platform@ == "linux"@ && arch@ == "aarch64"@ ==> (r matches Ok(u) && u@
            == "https://github.com/anomalyco/opencode/releases/latest/download/opencode-linux-arm64.tar.gz"@)),
        (!supported_platform(platform@, arch@) ==> (r matches Err(m) && m@
            == "Unsupported platform"@)),
{
    proof {
        broadcast use vstd::string::group_string_axioms;
        reveal_strlit("macos");
        reveal_strlit("windows");
        reveal_strlit("linux");
        reveal_strlit("aarch64");
        reveal_strlit("x86_64");
        assert("macos"@.len() == 5);
        assert("linux"@.len() == 5);
        assert("windows"@.len() == 7);
        assert("aarch64"@.len() == 7);
        assert("x86_64"@.len() == 6);
        assert("macos"@[0] == 'm');
        assert("linux"@[0] == 'l');
    }
    if str_eq(platform, "macos") {
        if str_eq(arch, "aarch64") {
            Ok(String::from_str(
                "https://github.com/anomalyco/opencode/releases/latest/download/opencode-darwin-arm64.zip",
            ))
        } else if str_eq(arch, "x86_64") {
            Ok(String::from_str(
                "https://github.com/anomalyco/opencode/releases/latest/download/opencode-darwin-x64.zip",
            ))
        } else {
            Err(String::from_str("Unsupported platform"))
        }
    } else if str_eq(platform, "windows") {
        if str_eq(arch, "x86_64") {
            Ok(String::from_str(
                "https://github.com/anomalyco/opencode/releases/latest/download/opencode-windows-x64.zip",
            ))
        } else {
            Err(String::from_str("Unsupported platform"))
        }
    } else if str_eq(platform, "linux") {
        if str_eq(arch, "x86_64") {
            Ok(String::from_str(
                "https://github.com/anomalyco/opencode/releases/latest/download/opencode-linux-x64.tar.gz",
            ))
        } else if str_eq(arch, "aarch64") {
            Ok(String::from_str(
                "https://github.com/anomalyco/opencode/releases/latest/download/opencode-linux-arm64.tar.gz",
            ))
        } else {
            Err(String::from_str("Unsupported platform"))
        }
    } else {
        Err(String::from_str("Unsupported platform"))
    }
}

} // verus!
