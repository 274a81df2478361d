//! Host-side settings for a Hexagon SDK/FastRPC session.

use std::path::PathBuf;

use vstd::prelude::*;

verus! {

/// `std::path::PathBuf`: a path that is carried to the platform loader.
#[verifier::external_type_specification]
#[verifier::external_body]
pub struct ExPathBuf(std::path::PathBuf);

/// `PathBuf::clone`: the same path again.
pub assume_specification[ <PathBuf as Clone>::clone ](path: &PathBuf) -> (r: PathBuf)
    ensures
        r == *path,
;

/// What the process environment says about a FastRPC session.
pub struct HexagonEnvironment {
    /// `LUMINAL_HEXAGON_RPC_DLL`.
    pub rpc_library: Option<PathBuf>,
    /// `LUMINAL_HEXAGON_SKEL_URI`.
    pub skel_uri: Option<String>,
}

/// Host-side settings for a Hexagon SDK/FastRPC session.
#[derive(Debug, Clone)]
pub struct HexagonConfig {
    /// Optional path to `libcdsprpc.dll`. If omitted, the platform loader is
    /// used and `LUMINAL_HEXAGON_RPC_DLL` is consulted first.
    pub rpc_library: Option<PathBuf>,
    /// FastRPC URI for the installed v73 skel.
    pub skel_uri: String,
    /// FastRPC domain. Snapdragon X Elite's compute DSP is domain 3 (CDSP).
    pub domain: i32,
    /// Allow an unsigned DSP module when the device permits it. Production
    /// deployments should install a signed/catalogued module instead.
    pub allow_unsigned_module: bool,
}

/// The skel that is opened when the environment names none.
pub const DEFAULT_SKEL_URI: &'static str =
    "file:///libluminal_hexagon-v73.so?luminal_hexagon_skel_handle_invoke&_modver=1.0&_dom=cdsp";

/// The FastRPC library that is loaded when neither the settings nor the
/// environment name one.
pub const DEFAULT_RPC_LIBRARY: &'static str = "libcdsprpc.dll";

/// The FastRPC library to load.
#[derive(Debug)]
pub enum RpcLibrary<'a> {
    /// The one at this path.
    Path(&'a PathBuf),
    /// The one that the platform loader finds under this name.
    Loader(&'static str),
}

/// The FastRPC library to load: the one that the settings name, else the one
/// that `LUMINAL_HEXAGON_RPC_DLL` names, else the default one.
pub fn library_name<'a>(config: &'a HexagonConfig, environment: &'a HexagonEnvironment) -> (r:
    RpcLibrary<'a>)
    ensures
        r == (match (config.rpc_library, environment.rpc_library) {
            (Some(path), _) => RpcLibrary::Path(&path),
            (None, Some(path)) => RpcLibrary::Path(&path),
            (None, None) => RpcLibrary::Loader(DEFAULT_RPC_LIBRARY),
        }),
{
    match &config.rpc_library {
        Some(path) => RpcLibrary::Path(path),
        None => match &environment.rpc_library {
            Some(path) => RpcLibrary::Path(path),
            None => RpcLibrary::Loader(DEFAULT_RPC_LIBRARY),
        },
    }
}

impl HexagonConfig {
    /// The default settings in a given environment: the compute DSP, an
    /// unsigned module allowed, and the library and skel that the environment
    /// names.
    pub fn from_environment(environment: HexagonEnvironment) -> (r: Self)
        ensures
            r.rpc_library == environment.rpc_library,
            r.skel_uri@ == (match environment.skel_uri {
                Some(uri) => uri@,
                None => DEFAULT_SKEL_URI@,
            }),
            r.domain == 3,
            r.allow_unsigned_module,
    {
        HexagonConfig {
            rpc_library: environment.rpc_library,
            skel_uri: match environment.skel_uri {
                Some(uri) => uri,
                None => DEFAULT_SKEL_URI.to_owned(),
            },
            domain: 3,
            allow_unsigned_module: true,
        }
    }

    /// The same settings with another FastRPC library.
    pub fn with_rpc_library(self, path: PathBuf) -> (r: Self)
        ensures
            r == (HexagonConfig { rpc_library: Some(path), ..self }),
    {
        let mut config = self;
        config.rpc_library = Some(path);
        config
    }

    /// The same settings with another skel.
    pub fn with_skel_uri(self, uri: String) -> (r: Self)
        ensures
            r == (HexagonConfig { skel_uri: uri, ..self }),
    {
        let mut config = self;
        config.skel_uri = uri;
        config
    }
}

/// The nearest setting wins: a library that the settings name is loaded whatever the
/// environment says, one that only the environment names is loaded next, and the
/// platform's own is the last resort.
pub proof fn law_nearest_library_wins<'a>(
    config: HexagonConfig,
    set: HexagonConfig,
    path: PathBuf,
    environment: HexagonEnvironment,
    started: HexagonEnvironment,
    named: RpcLibrary<'a>,
    found: RpcLibrary<'a>,
)
    requires
        call_ensures(HexagonConfig::with_rpc_library, (config, path), set),
        call_ensures(library_name, (&set, &environment), named),
        call_ensures(HexagonConfig::from_environment, (started,), config),
        call_ensures(library_name, (&config, &environment), found),
    ensures
        named == RpcLibrary::Path(&path),
        match (started.rpc_library, environment.rpc_library) {
            (Some(first), _) => found == RpcLibrary::Path(&first),
            (None, Some(second)) => found == RpcLibrary::Path(&second),
            (None, None) => found == RpcLibrary::Loader(DEFAULT_RPC_LIBRARY),
        },
{
}

/// Settings do not interfere: setting the library and the skel in either order gives
/// both, and leaves the domain and the kind of module as they were.
pub proof fn law_settings_are_independent(
    config: HexagonConfig,
    path: PathBuf,
    uri: String,
    a: HexagonConfig,
    ab: HexagonConfig,
    b: HexagonConfig,
    ba: HexagonConfig,
)
    requires
        call_ensures(HexagonConfig::with_rpc_library, (config, path), a),
        call_ensures(HexagonConfig::with_skel_uri, (a, uri), ab),
        call_ensures(HexagonConfig::with_skel_uri, (config, uri), b),
        call_ensures(HexagonConfig::with_rpc_library, (b, path), ba),
    ensures
        ab == ba,
        ab.rpc_library == Some(path),
        ab.skel_uri == uri,
        ab.domain == config.domain,
        ab.allow_unsigned_module == config.allow_unsigned_module,
{
}

} // verus!
