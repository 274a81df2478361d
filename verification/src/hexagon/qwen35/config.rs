//! Runtime configuration for the selected Qwen3.5 Q4 export.

use std::path::PathBuf;

use vstd::prelude::*;

use crate::hexagon::config::{HexagonConfig, HexagonEnvironment};
use crate::hexagon::qwen35::{EXPORTED_WEIGHT_FILENAME, MAX_PREFILL_TOKENS};

verus! {

/// What the process environment says about a Qwen3.5 session.
pub struct Qwen35Environment {
    /// `LUMINAL_QWEN35_SKEL_URI`.
    pub skel_uri: Option<String>,
    /// `LUMINAL_QWEN35_WEIGHTS`.
    pub weights: Option<PathBuf>,
    /// The variables of the FastRPC session.
    pub rpc: HexagonEnvironment,
}

/// Runtime configuration for the selected Qwen3.5 Q4 export.
#[derive(Debug, Clone)]
pub struct Qwen35Q4Config {
    /// QWH9 file exported from the selected mixed-GGUF checkpoint.
    pub weights: PathBuf,
    /// FastRPC and DSP skel settings. For actual execution the URI must point
    /// to the ABI-compatible resident Qwen module.
    pub rpc: HexagonConfig,
    /// Runtime-side prefill limit. The current QWH9 DSP module supports up to
    /// 256 prompt tokens without changing its generated workspace layout.
    pub max_prefill_tokens: usize,
}

/// The resident module that is opened when the environment names none.
pub const DEFAULT_QWEN_SKEL_URI: &'static str =
    "file:///libhexinfer-v73.so?hexinfer_skel_handle_invoke&_modver=1.0&_dom=cdsp";

impl Qwen35Q4Config {
    /// Whether a session can be opened with the configured prefill limit.
    pub open spec fn prefill_limit_valid(self) -> bool {
        2 <= self.max_prefill_tokens <= MAX_PREFILL_TOKENS
    }

    /// The default configuration in a given environment.
    pub fn from_environment(environment: Qwen35Environment) -> (r: Self)
        ensures
            environment.weights matches Some(path) ==> r.weights == path,
            environment.weights is None ==> call_ensures(
                <&'static str as Into<PathBuf>>::into,
                (EXPORTED_WEIGHT_FILENAME,),
                r.weights,
            ),
            r.rpc.rpc_library == environment.rpc.rpc_library,
            r.rpc.skel_uri@ == (match environment.skel_uri {
                Some(uri) => uri@,
                None => DEFAULT_QWEN_SKEL_URI@,
            }),
            r.rpc.domain == 3,
            r.rpc.allow_unsigned_module,
            r.max_prefill_tokens == MAX_PREFILL_TOKENS,
    {
        let skel_uri = match environment.skel_uri {
            Some(uri) => uri,
            None => DEFAULT_QWEN_SKEL_URI.to_owned(),
        };
        let weights: PathBuf = match environment.weights {
            Some(path) => path,
            None => EXPORTED_WEIGHT_FILENAME.into(),
        };
        Qwen35Q4Config {
            weights,
            rpc: HexagonConfig::from_environment(environment.rpc).with_skel_uri(skel_uri),
            max_prefill_tokens: MAX_PREFILL_TOKENS,
        }
    }

    /// The default configuration in a given environment, with the weights at
    /// `path`.
    pub fn from_weights(path: PathBuf, environment: Qwen35Environment) -> (r: Self)
        ensures
            r.weights == path,
            r.rpc.rpc_library == environment.rpc.rpc_library,
            r.rpc.skel_uri@ == (match environment.skel_uri {
                Some(uri) => uri@,
                None => DEFAULT_QWEN_SKEL_URI@,
            }),
            r.rpc.domain == 3,
            r.rpc.allow_unsigned_module,
            r.max_prefill_tokens == MAX_PREFILL_TOKENS,
    {
        Self::from_environment(environment).with_weights(path)
    }

    /// The same configuration with other weights.
    pub fn with_weights(self, path: PathBuf) -> (r: Self)
        ensures
            r == (Qwen35Q4Config { weights: path, ..self }),
    {
        let mut config = self;
        config.weights = path;
        config
    }

    /// The same configuration with another resident module.
    pub fn with_skel_uri(self, uri: String) -> (r: Self)
        ensures
            r == (Qwen35Q4Config { rpc: HexagonConfig { skel_uri: uri, ..self.rpc }, ..self }),
    {
        let mut config = self;
        config.rpc.skel_uri = uri;
        config
    }

    /// The same configuration with another FastRPC library.
    pub fn with_rpc_library(self, path: PathBuf) -> (r: Self)
        ensures
            r == (Qwen35Q4Config {
                rpc: HexagonConfig { rpc_library: Some(path), ..self.rpc },
                ..self
            }),
    {
        let mut config = self;
        config.rpc.rpc_library = Some(path);
        config
    }

    /// The same configuration with another prefill limit, which must lie
    /// between 2 and [`MAX_PREFILL_TOKENS`].
    pub fn with_max_prefill_tokens(self, max_tokens: usize) -> (r: Self)
        requires
            2 <= max_tokens <= MAX_PREFILL_TOKENS,
        ensures
            r == (Qwen35Q4Config { max_prefill_tokens: max_tokens, ..self }),
            r.prefill_limit_valid(),
    {
        let mut config = self;
        config.max_prefill_tokens = max_tokens;
        config
    }
}

/// Settings do not interfere: whatever else is set afterwards, the weights, the
/// library, the module and the limit are those that were set last.
pub proof fn law_settings_are_independent(
    config: Qwen35Q4Config,
    weights: PathBuf,
    library: PathBuf,
    uri: String,
    limit: usize,
    a: Qwen35Q4Config,
    b: Qwen35Q4Config,
    c: Qwen35Q4Config,
    d: Qwen35Q4Config,
)
    requires
        2 <= limit <= MAX_PREFILL_TOKENS,
        call_ensures(Qwen35Q4Config::with_weights, (config, weights), a),
        call_ensures(Qwen35Q4Config::with_rpc_library, (a, library), b),
        call_ensures(Qwen35Q4Config::with_skel_uri, (b, uri), c),
        call_ensures(Qwen35Q4Config::with_max_prefill_tokens, (c, limit), d),
    ensures
        d.weights == weights,
        d.rpc.rpc_library == Some(library),
        d.rpc.skel_uri == uri,
        d.max_prefill_tokens == limit,
        d.rpc.domain == config.rpc.domain,
        d.rpc.allow_unsigned_module == config.rpc.allow_unsigned_module,
        a.rpc == config.rpc,
        a.max_prefill_tokens == config.max_prefill_tokens,
{
}

/// Weights that are given win over those that the environment names, and nothing else
/// depends on them.
pub proof fn law_given_weights_win(
    path: PathBuf,
    environment: Qwen35Environment,
    given: Qwen35Q4Config,
    found: Qwen35Q4Config,
)
    requires
        call_ensures(Qwen35Q4Config::from_weights, (path, environment), given),
        call_ensures(Qwen35Q4Config::from_environment, (environment,), found),
    ensures
        given.weights == path,
        environment.weights matches Some(named) ==> found.weights == named,
        given.rpc.rpc_library == found.rpc.rpc_library,
        given.rpc.skel_uri@ == found.rpc.skel_uri@,
        given.rpc.domain == found.rpc.domain,
        given.max_prefill_tokens == found.max_prefill_tokens,
        environment.skel_uri matches Some(uri) ==> given.rpc.skel_uri@ == uri@,
        given.prefill_limit_valid(),
{
}

} // verus!
