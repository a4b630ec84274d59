use vstd::prelude::*;
use crate::text::{ascii_lower, eq_lowered, prefix_eq};

verus! {

/// Application settings persisted by the surrounding application.
pub struct AppSettings {
    /// Root directory of the user's vault, if one has been chosen.
    pub vault_path: Option<String>,
    /// Whether the terminal pane is shown.
    pub show_terminal: bool,
}

impl Default for AppSettings {
    /// Fresh settings: no vault chosen, terminal hidden.
    fn default() -> (r: Self)
        ensures
            r.vault_path is None,
            !r.show_terminal,
    {
        AppSettings { vault_path: None, show_terminal: false }
    }
}

/// The host platform and its suggested vault location.
pub struct PlatformInfo {
    /// Platform name, such as "linux" or "macos".
    pub platform: String,
    /// Suggested default vault directory, if the platform offers one.
    pub default_vault_path: Option<String>,
}

/// One entry of the vault's file tree.
pub struct FileEntry {
    /// File or directory name.
    pub name: String,
    /// Full path of the entry.
    pub path: String,
    /// Whether the entry is a directory.
    pub is_directory: bool,
    /// Child entries of a directory; absent for a file.
    pub children: Option<Vec<FileEntry>>,
}

/// An embeddable asset found under the vault.
pub struct AssetEntry {
    /// File name of the asset.
    pub name: String,
    /// Full path of the asset.
    pub path: String,
    /// Lower-cased file extension.
    pub extension: String,
    /// Path relative to the vault root.
    pub relative_path: String,
}

/// One matching line of a text search.
pub struct SearchMatch {
    /// One-based line number of the match.
    pub line: usize,
    /// The matching line, truncated by the searcher.
    pub content: String,
}

/// All matches of a text search within one file.
pub struct SearchResult {
    /// Full path of the file.
    pub path: String,
    /// File name.
    pub name: String,
    /// The matching lines.
    pub matches: Vec<SearchMatch>,
}

/// Size and timestamps of one file.
pub struct FileStats {
    /// File size in bytes.
    pub size: u64,
    /// Creation time as a Unix timestamp in seconds (zero if unknown).
    pub created: u64,
    /// Last modification time as a Unix timestamp in seconds (zero if
    /// unknown).
    pub modified: u64,
}

/// Extensions rendered inline as images.
pub open spec fn is_image_extension(l: Seq<char>) -> bool {
    ||| l == "avif"@
    ||| l == "bmp"@
    ||| l == "gif"@
    ||| l == "jpeg"@
    ||| l == "jpg"@
    ||| l == "png"@
    ||| l == "svg"@
    ||| l == "webp"@
}

/// Extensions rendered inline as audio.
pub open spec fn is_audio_extension(l: Seq<char>) -> bool {
    ||| l == "flac"@
    ||| l == "m4a"@
    ||| l == "mp3"@
    ||| l == "ogg"@
    ||| l == "wav"@
    ||| l == "webm"@
    ||| l == "3gp"@
}

/// Extensions rendered inline as video.
pub open spec fn is_video_extension(l: Seq<char>) -> bool {
    ||| l == "mkv"@
    ||| l == "mov"@
    ||| l == "mp4"@
    ||| l == "ogv"@
    ||| l == "webm"@
}

/// Whether a file extension names an embeddable asset type (image,
/// audio, video or PDF), compared without regard to ASCII case.
pub open spec fn is_embeddable_spec(ext: Seq<char>) -> bool {
    let l = ascii_lower(ext);
    is_image_extension(l) || is_audio_extension(l) || is_video_extension(l) || l == "pdf"@
}

/// Whether a file extension names an embeddable asset type.
pub fn is_embeddable_extension(ext: &str) -> (r: bool)
    ensures
        r == is_embeddable_spec(ext@),
{
    eq_lowered(ext, "avif") || eq_lowered(ext, "bmp") || eq_lowered(ext, "gif") || eq_lowered(
        ext,
        "jpeg",
    ) || eq_lowered(ext, "jpg") || eq_lowered(ext, "png") || eq_lowered(ext, "svg") || eq_lowered(
        ext,
        "webp",
    ) || eq_lowered(ext, "flac") || eq_lowered(ext, "m4a") || eq_lowered(ext, "mp3") || eq_lowered(
        ext,
        "ogg",
    ) || eq_lowered(ext, "wav") || eq_lowered(ext, "webm") || eq_lowered(ext, "3gp") || eq_lowered(
        ext,
        "mkv",
    ) || eq_lowered(ext, "mov") || eq_lowered(ext, "mp4") || eq_lowered(ext, "ogv") || eq_lowered(
        ext,
        "pdf",
    )
}

/// Whether a canonical path lies within the canonical vault directory:
/// it is the vault itself, or extends it at a path-component boundary.
pub open spec fn path_within_vault(path: Seq<char>, vault: Seq<char>) -> bool {
    ||| path == vault
    ||| (vault.len() < path.len() && path.subrange(0, vault.len() as int) == vault && (path[
        vault.len() as int
    ] == '/' || (vault.len() > 0 && vault.last() == '/')))
}

/// Decide whether a path may be touched: it must lie within the vault
/// directory. Both arguments are canonical paths (symlinks and parent
/// steps already resolved by the caller). On success the path is handed
/// back; otherwise the access-denied message names the offending path.
pub fn validate_vault_path(path: &str, vault_path: &str) -> (r: Result<String, String>)
    ensures
        r is Ok <==> path_within_vault(path@, vault_path@),
        r matches Ok(p) ==> p@ == path@,
        r matches Err(m) ==> m@ == "Access denied: path '"@ + path@
            + "' is outside the vault directory"@,
{
    let plen = path.unicode_len();
    let vlen = vault_path.unicode_len();
    let inside = if plen == vlen {
        prefix_eq(path, vault_path, vlen)
    } else if vlen < plen {
        if prefix_eq(path, vault_path, vlen) {
            if path.get_char(vlen) == '/' {
                true
            } else if vlen > 0 {
                vault_path.get_char(vlen - 1) == '/'
            } else {
                false
            }
        } else {
            false
        }
    } else {
        false
    };
    proof {
        if plen == vlen && path@.subrange(0, vlen as int) == vault_path@.subrange(0, vlen as int) {
            assert(path@.subrange(0, plen as int) =~= path@);
            assert(vault_path@.subrange(0, vlen as int) =~= vault_path@);
        }
        if vlen < plen {
            assert(vault_path@.subrange(0, vlen as int) =~= vault_path@);
        }
    }
    if inside {
        Ok(String::from_str(path))
    } else {
        let msg = String::from_str("Access denied: path '").concat(path).concat(
            "' is outside the vault directory",
        );
        Err(msg)
    }
}

} // verus!
