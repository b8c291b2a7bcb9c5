use vstd::prelude::*;

use crate::browser_cli::cat2;
use crate::state::join_path;
use crate::state::join_path_spec;
use crate::text::owned;

verus! {

// ---------------------------------------------------------------------------
// Curated plugins: the browser build keeps no local checkout of the curated
// plugin repository and cannot sync one without a git/archive host.
// ---------------------------------------------------------------------------

pub open spec fn curated_plugins_relative_dir() -> Seq<char> {
    ".tmp/plugins"@
}

/// Where the curated plugin repository lives under `codex_home`.
pub fn curated_plugins_repo_path(codex_home: &str) -> (r: String)
    ensures
        r@ == join_path_spec(codex_home@, curated_plugins_relative_dir()),
{
    join_path(codex_home, ".tmp/plugins")
}

/// No curated plugin snapshot is ever present, so there is no revision.
pub fn read_curated_plugins_sha(codex_home: &str) -> (r: Option<String>)
    ensures
        r is None,
{
    None
}

pub open spec fn sync_unavailable_text() -> Seq<char> {
    "browser curated plugin sync requires an almostnode git/archive host shim"@
}

/// Syncing always fails, saying what the browser would need.
pub fn sync_openai_plugins_repo(codex_home: &str) -> (r: Result<String, String>)
    ensures
        r matches Err(m) && m@ == sync_unavailable_text(),
{
    Err(owned("browser curated plugin sync requires an almostnode git/archive host shim"))
}

pub fn has_local_curated_plugins_snapshot(codex_home: &str) -> (r: bool)
    ensures
        !r,
{
    false
}

/// Why a remote plugin bundle could not be installed.
#[derive(Debug, Clone)]
pub enum RemotePluginBundleInstallError {
    InvalidBundle(String),
    BrowserHostShimRequired,
}

pub open spec fn bundle_error_text(e: RemotePluginBundleInstallError) -> Seq<char> {
    match e {
        RemotePluginBundleInstallError::InvalidBundle(m) => m@,
        RemotePluginBundleInstallError::BrowserHostShimRequired =>
            "browser remote plugin bundle installation requires an almostnode storage/archive host shim"@,
    }
}

impl RemotePluginBundleInstallError {
    pub fn message(&self) -> (r: String)
        ensures
            r@ == bundle_error_text(*self),
    {
        proof {
            reveal_strlit("");
        }
        match self {
            RemotePluginBundleInstallError::InvalidBundle(m) => cat2(m.as_str(), ""),
            RemotePluginBundleInstallError::BrowserHostShimRequired => owned(
                "browser remote plugin bundle installation requires an almostnode storage/archive host shim",
            ),
        }
    }
}

/// Installing a downloaded bundle always fails in the browser.
pub fn download_and_install_remote_plugin_bundle(codex_home: String) -> (r: Result<
    (),
    RemotePluginBundleInstallError,
>)
    ensures
        r matches Err(RemotePluginBundleInstallError::BrowserHostShimRequired),
{
    Err(RemotePluginBundleInstallError::BrowserHostShimRequired)
}

/// The browser build has no Bedrock credential chain, so no region is
/// supported.
pub fn is_supported_amazon_bedrock_region(region: &str) -> (r: bool)
    ensures
        !r,
{
    false
}

} // verus!
