//! Static server configuration: a pure read of build-time constants.

use vstd::prelude::*;

verus! {

/// Static server configuration handed to the front end: where the server
/// lives, whether this is a development build, and the runtime version the
/// binary was packaged with.
pub struct ServerInfo {
    pub server_url: String,
    pub is_development: bool,
    pub runtime_version: String,
}

/// The build-time configuration a binary was compiled with: an optional
/// injected server URL, the debug flag, and the packaged runtime version.
pub struct BuildConfig {
    pub server_url_override: Option<String>,
    pub is_debug_build: bool,
    pub runtime_version: String,
}

/// The fixed development endpoint used when no server URL was injected at
/// build time.
pub open spec fn default_server_url() -> Seq<char> {
    "http://localhost:8001"@
}

/// Exactly the server metadata that `get_server_info` reports for a build
/// configuration: every field is pinned by the configuration alone.
pub open spec fn server_info_for(build: BuildConfig, info: ServerInfo) -> bool {
    &&& match build.server_url_override {
        Some(url) => info.server_url@ == url@,
        None => info.server_url@ == default_server_url(),
    }
    &&& info.is_development == build.is_debug_build
    &&& info.runtime_version@ == build.runtime_version@
}

/// Computes the static server metadata for a build configuration. Pure and
/// total: it never fails, and the result is a function of the configuration
/// alone. The URL resolves to the build-time override when one is present,
/// else to the fixed development default; `is_development` reflects the
/// debug flag as it stands.
pub fn get_server_info(build: BuildConfig) -> (info: ServerInfo)
    ensures
        server_info_for(build, info),
{
    let server_url = match build.server_url_override {
        Some(url) => url,
        None => "http://localhost:8001".to_owned(),
    };
    ServerInfo {
        server_url,
        is_development: build.is_debug_build,
        runtime_version: build.runtime_version,
    }
}

/// `get_server_info` is deterministic: any two results for equal build
/// configurations agree in every field.
pub proof fn lemma_server_info_deterministic(build: BuildConfig, a: ServerInfo, b: ServerInfo)
    requires
        server_info_for(build, a),
        server_info_for(build, b),
    ensures
        a.server_url@ == b.server_url@,
        a.is_development == b.is_development,
        a.runtime_version@ == b.runtime_version@,
{
}

} // verus!
