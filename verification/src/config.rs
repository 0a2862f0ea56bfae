//! Configuration data consumed by the protocol client and its
//! surrounding application. All values are read-only plain data for the
//! lifetime of a session; loading them from disk happens outside the crate.

use vstd::prelude::*;

use crate::text::{ascii_lower, spec_ascii_lower, spec_trimmed, trim_ascii};

verus! {

/// Fallback keep-alive interval for the REST heartbeat, in seconds.
pub const DEFAULT_HEARTBEAT_SECONDS: u64 = 20;

/// Smallest keep-alive interval the client accepts, in seconds.
pub const MIN_HEARTBEAT_SECONDS: u64 = 5;

/// Credentials and settings of one live-platform connection.
#[derive(Debug, Clone)]
pub struct BilibiliLiveConfig {
    pub access_key: String,
    pub access_secret: String,
    pub app_id: i64,
    pub id_code: Option<String>,
    pub host: Option<String>,
    pub heartbeat_interval_seconds: u64,
}

/// The REST heartbeat interval actually used: the requested value, or the
/// default when none is given, clamped to the minimum of five seconds.
pub fn clamped_heartbeat_interval(requested: Option<u64>) -> (r: u64)
    ensures
        requested matches Some(v) ==> r == (if v < MIN_HEARTBEAT_SECONDS {
            MIN_HEARTBEAT_SECONDS
        } else {
            v
        }),
        requested is None ==> r == DEFAULT_HEARTBEAT_SECONDS,
{
    let v = match requested {
        Some(v) => v,
        None => DEFAULT_HEARTBEAT_SECONDS,
    };
    if v < MIN_HEARTBEAT_SECONDS {
        MIN_HEARTBEAT_SECONDS
    } else {
        v
    }
}

/// Settings of the chat completion provider.
#[derive(Debug, Clone)]
pub struct OpenAiConfig {
    pub api_key: String,
    pub base_url: Option<String>,
    pub chat_model: String,
    pub agent_preamble: String,
    pub image_model: String,
}

/// Settings of the speech/music provider.
#[derive(Debug, Clone)]
pub struct HyperbolicConfig {
    pub api_key: String,
    pub language: String,
    pub voice: String,
}

/// Settings of the custom video-generation endpoint.
#[derive(Debug, Clone)]
pub struct VideoConfig {
    pub endpoint: String,
    pub api_key: Option<String>,
    pub format: String,
    pub max_duration_seconds: Option<u32>,
}

/// Settings of the alternative chat completion provider.
#[derive(Debug, Clone)]
pub struct ZhipuConfig {
    pub api_key: String,
    pub chat_model: String,
    pub agent_preamble: String,
    pub api_url: String,
}

/// Network settings of the gateway server.
#[derive(Debug, Clone)]
pub struct ServerConfig {
    pub host: String,
    pub port: u16,
    pub tts_provider: String,
    pub embedding_provider: String,
}

/// Settings of the hosted model API used for chat and embeddings.
#[derive(Debug, Clone)]
pub struct OpenAIConfig {
    pub api_key: String,
    pub base_url: String,
    pub model: String,
    pub embedding_model: String,
    pub tts_model: String,
    pub tts_voice: String,
}

/// Settings of the self-hosted speech synthesizer.
#[derive(Debug, Clone)]
pub struct IndexTTSConfig {
    pub url: String,
    pub model: String,
    pub voice: String,
}

/// Settings of the embedding service.
#[derive(Debug, Clone)]
pub struct DmetaEmbeddingConfig {
    pub url: String,
    pub model: String,
}

/// Shared-secret settings of client authentication.
#[derive(Debug, Clone)]
pub struct AuthConfig {
    pub secret_key: String,
    pub valid_api_keys: Vec<String>,
    pub timestamp_tolerance: u64,
}

/// Limits of danmaku processing.
#[derive(Debug, Clone)]
pub struct ProcessingConfig {
    pub max_danmaku_length: usize,
    pub response_timeout: u64,
    pub max_execution_time: u64,
}

/// Logging and telemetry switches.
#[derive(Debug, Clone)]
pub struct LoggingConfig {
    pub rust_log: String,
    pub otel_sdk_disabled: bool,
    pub crewai_telemetry_disabled: bool,
}

/// Settings of the vector store behind long-term memory.
#[derive(Debug, Clone)]
pub struct QdrantConfig {
    pub url: String,
    pub api_key: Option<String>,
    pub collection_name: String,
    pub vector_size: u64,
    pub distance: String,
    pub enable_embedding_provider_filter: bool,
}

/// Which provider serves one capability, and with which model.
#[derive(Debug, Clone)]
pub struct CapabilityRoute {
    pub provider: String,
    pub model: Option<String>,
}

impl CapabilityRoute {
    /// A route with the provider name trimmed and folded to lowercase.
    pub fn new(provider: &str, model: Option<String>) -> (r: Self)
        ensures
            r.provider@ == spec_ascii_lower(spec_trimmed(provider@)),
            r.model == model,
    {
        CapabilityRoute { provider: ascii_lower(trim_ascii(provider)), model }
    }
}

/// The chosen route of each capability; a missing route disables it.
#[derive(Debug, Clone)]
pub struct CapabilityProviders {
    pub intent: Option<CapabilityRoute>,
    pub conversation: Option<CapabilityRoute>,
    pub image: Option<CapabilityRoute>,
    pub music: Option<CapabilityRoute>,
    pub video: Option<CapabilityRoute>,
}

impl CapabilityProviders {
    /// The default music route: the speech/music provider with its
    /// configured language, when one is configured at all.
    pub fn default_music(hyperbolic: Option<&HyperbolicConfig>) -> (r: Option<CapabilityRoute>)
        ensures
            r is Some <==> hyperbolic is Some,
            r matches Some(route) ==> ({
                &&& route.provider@ == "hyperbolic"@
                &&& hyperbolic matches Some(cfg) && (route.model matches Some(m) && m@
                    == cfg.language@)
            }),
    {
        match hyperbolic {
            Some(cfg) => {
                let route = CapabilityRoute::new("hyperbolic", Some(cfg.language.clone()));
                proof {
                    assert(spec_ascii_lower(spec_trimmed("hyperbolic"@)) =~= "hyperbolic"@) by {
                        reveal_strlit("hyperbolic");
                    }
                }
                Some(route)
            },
            None => None,
        }
    }

    /// The default video route: the custom endpoint with its configured
    /// container format, when one is configured at all.
    pub fn default_video(video: Option<&VideoConfig>) -> (r: Option<CapabilityRoute>)
        ensures
            r is Some <==> video is Some,
            r matches Some(route) ==> ({
                &&& route.provider@ == "custom"@
                &&& video matches Some(cfg) && (route.model matches Some(m) && m@ == cfg.format@)
            }),
    {
        match video {
            Some(cfg) => {
                let route = CapabilityRoute::new("custom", Some(cfg.format.clone()));
                proof {
                    assert(spec_ascii_lower(spec_trimmed("custom"@)) =~= "custom"@) by {
                        reveal_strlit("custom");
                    }
                }
                Some(route)
            },
            None => None,
        }
    }
}

} // verus!
