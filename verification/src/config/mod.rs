//! The settings of the application and where they come from.

pub mod num_cpus;

use vstd::prelude::*;
use crate::engine::text::{parse_u16, parsed_u16};

verus! {

/// The settings of the HTTP server.
#[derive(Debug, Clone)]
pub struct ServerConfig {
    pub host: String,
    pub port: u16,
    pub workers: usize,
    pub max_connections: usize,
    pub request_timeout_secs: u64,
}

/// Where the databases are.
#[derive(Debug, Clone)]
pub struct DatabaseConfig {
    pub questdb_host: String,
    pub questdb_port: u16,
    pub redis_url: String,
    pub qdrant_url: String,
    pub qdrant_collection: String,
}

/// The settings of authentication and admission.
#[derive(Debug, Clone)]
pub struct SecurityConfig {
    pub jwt_secret: String,
    pub jwt_expiry_hours: u64,
    pub allowed_wireguard_ips: Vec<String>,
    pub enable_zero_trust: bool,
    pub vault_addr: Option<String>,
    pub vault_token: Option<String>,
    pub tls_cert_path: Option<String>,
    pub tls_key_path: Option<String>,
}

/// The settings of search and embedding.
#[derive(Debug, Clone)]
pub struct SearchConfig {
    pub serpapi_key: Option<String>,
    pub arxiv_max_results: usize,
    pub pdf_storage_path: String,
    pub embedding_model: String,
    pub embedding_dimension: usize,
}

/// Who runs the language model.
#[derive(Debug, Clone, Copy, PartialEq, Eq, Structural)]
pub enum LlmProvider {
    OpenAI,
    Anthropic,
    Ollama,
    Local,
}

/// The settings of the language model.
#[derive(Debug, Clone)]
pub struct LlmConfig {
    pub default_provider: LlmProvider,
    pub openai_api_key: Option<String>,
    pub anthropic_api_key: Option<String>,
    pub ollama_url: Option<String>,
    pub default_model: String,
    pub max_tokens: usize,
    /// The sampling temperature, as the bit pattern of a single-precision
    /// number.
    pub temperature_bits: u32,
}

/// The settings of the analysis runtime.
#[derive(Debug, Clone)]
pub struct JuliaConfig {
    pub enabled: bool,
    pub julia_path: Option<String>,
    pub project_path: String,
    pub num_threads: usize,
}

/// All settings.
#[derive(Debug, Clone)]
pub struct Settings {
    pub server: ServerConfig,
    pub database: DatabaseConfig,
    pub security: SecurityConfig,
    pub search: SearchConfig,
    pub llm: LlmConfig,
    pub julia: JuliaConfig,
}

/// What the environment says about the settings: the values of the
/// variables that are set.
#[derive(Debug, Clone)]
pub struct EnvOverrides {
    /// `PRIOR_PORT`
    pub port: Option<String>,
    /// `PRIOR_HOST`
    pub host: Option<String>,
    /// `OPENAI_API_KEY`
    pub openai_api_key: Option<String>,
    /// `ANTHROPIC_API_KEY`
    pub anthropic_api_key: Option<String>,
    /// `SERPAPI_KEY`
    pub serpapi_key: Option<String>,
    /// `JWT_SECRET`
    pub jwt_secret: Option<String>,
    /// `REDIS_URL`
    pub redis_url: Option<String>,
    /// `QDRANT_URL`
    pub qdrant_url: Option<String>,
}

/// The text that results when `new` overrides `old`, if it is given.
pub open spec fn overridden(old: Seq<char>, new: Option<String>) -> Seq<char> {
    match new {
        Some(text) => text@,
        None => old,
    }
}

/// The optional text that results when `new` overrides `old`, if it is
/// given.
pub open spec fn overridden_option(old: Option<String>, new: Option<String>) -> Option<Seq<char>> {
    match new {
        Some(text) => Some(text@),
        None => match old {
            Some(text) => Some(text@),
            None => None,
        },
    }
}

/// The port that results when the text `new` overrides `old`, if it is
/// given and denotes a port.
pub open spec fn overridden_port(old: u16, new: Option<String>) -> u16 {
    match new {
        Some(text) => match parsed_u16(text@) {
            Some(port) => port,
            None => old,
        },
        None => old,
    }
}

/// The model of an optional string.
pub open spec fn option_view(text: Option<String>) -> Option<Seq<char>> {
    match text {
        Some(t) => Some(t@),
        None => None,
    }
}

impl Settings {
    /// Whether these are the settings that apply when nothing is configured,
    /// on a machine that runs `workers` workers.
    pub open spec fn is_default(self, workers: usize) -> bool {
        &&& self.server.host@ == "127.0.0.1"@
        &&& self.server.port == 8080
        &&& self.server.workers == workers
        &&& self.server.max_connections == 10000
        &&& self.server.request_timeout_secs == 30
        &&& self.database.questdb_host@ == "localhost"@
        &&& self.database.questdb_port == 9009
        &&& self.database.redis_url@ == "redis://localhost:6379"@
        &&& self.database.qdrant_url@ == "http://localhost:6334"@
        &&& self.database.qdrant_collection@ == "prior_notebook"@
        &&& self.security.jwt_secret@ == "CHANGE_ME_IN_PRODUCTION"@
        &&& self.security.jwt_expiry_hours == 24
        &&& self.security.allowed_wireguard_ips@.len() == 1
        &&& self.security.allowed_wireguard_ips@[0]@ == "10.0.0.0/24"@
        &&& self.security.enable_zero_trust
        &&& self.security.vault_addr is None
        &&& self.security.vault_token is None
        &&& self.security.tls_cert_path is None
        &&& self.security.tls_key_path is None
        &&& self.search.serpapi_key is None
        &&& self.search.arxiv_max_results == 50
        &&& self.search.pdf_storage_path@ == "./data/pdfs"@
        &&& self.search.embedding_model@ == "BAAI/bge-small-en-v1.5"@
        &&& self.search.embedding_dimension == 384
        &&& self.llm.default_provider == LlmProvider::Anthropic
        &&& self.llm.openai_api_key is None
        &&& self.llm.anthropic_api_key is None
        &&& option_view(self.llm.ollama_url) == Some("http://localhost:11434"@)
        &&& self.llm.default_model@ == "sonnet-4-20250514"@
        &&& self.llm.max_tokens == 4096
        &&& self.llm.temperature_bits == 0x3f33_3333
        &&& !self.julia.enabled
        &&& self.julia.julia_path is None
        &&& self.julia.project_path@ == "./julia_lib"@
        &&& self.julia.num_threads == 4
    }

    /// The settings that apply when nothing is configured, on a machine
    /// that runs `workers` workers.
    pub fn defaults(workers: usize) -> (settings: Settings)
        ensures
            settings.is_default(workers),
    {
        let mut allowed_wireguard_ips: Vec<String> = Vec::new();
        allowed_wireguard_ips.push("10.0.0.0/24".to_owned());
        Settings {
            server: ServerConfig {
                host: "127.0.0.1".to_owned(),
                port: 8080,
                workers,
                max_connections: 10000,
                request_timeout_secs: 30,
            },
            database: DatabaseConfig {
                questdb_host: "localhost".to_owned(),
                questdb_port: 9009,
                redis_url: "redis://localhost:6379".to_owned(),
                qdrant_url: "http://localhost:6334".to_owned(),
                qdrant_collection: "prior_notebook".to_owned(),
            },
            security: SecurityConfig {
                jwt_secret: "CHANGE_ME_IN_PRODUCTION".to_owned(),
                jwt_expiry_hours: 24,
                allowed_wireguard_ips,
                enable_zero_trust: true,
                vault_addr: None,
                vault_token: None,
                tls_cert_path: None,
                tls_key_path: None,
            },
            search: SearchConfig {
                serpapi_key: None,
                arxiv_max_results: 50,
                pdf_storage_path: "./data/pdfs".to_owned(),
                embedding_model: "BAAI/bge-small-en-v1.5".to_owned(),
                embedding_dimension: 384,
            },
            llm: LlmConfig {
                default_provider: LlmProvider::Anthropic,
                openai_api_key: None,
                anthropic_api_key: None,
                ollama_url: Some("http://localhost:11434".to_owned()),
                default_model: "sonnet-4-20250514".to_owned(),
                max_tokens: 4096,
                temperature_bits: 0x3f33_3333,
            },
            julia: JuliaConfig {
                enabled: false,
                julia_path: None,
                project_path: "./julia_lib".to_owned(),
                num_threads: 4,
            },
        }
    }

    /// Whether `self` is `before` with the overrides of `env` applied: the
    /// port if it is given and denotes one, host, API keys, token secret and
    /// database URLs if they are given, and nothing else.
    pub open spec fn is_overridden(self, before: Settings, env: EnvOverrides) -> bool {
        &&& self.server.port == overridden_port(before.server.port, env.port)
        &&& self.server.host@ == overridden(before.server.host@, env.host)
        &&& self.server.workers == before.server.workers
        &&& self.server.max_connections == before.server.max_connections
        &&& self.server.request_timeout_secs == before.server.request_timeout_secs
        &&& option_view(self.llm.openai_api_key) == overridden_option(
            before.llm.openai_api_key,
            env.openai_api_key,
        )
        &&& option_view(self.llm.anthropic_api_key) == overridden_option(
            before.llm.anthropic_api_key,
            env.anthropic_api_key,
        )
        &&& self.llm.default_provider == before.llm.default_provider
        &&& self.llm.ollama_url == before.llm.ollama_url
        &&& self.llm.default_model == before.llm.default_model
        &&& self.llm.max_tokens == before.llm.max_tokens
        &&& self.llm.temperature_bits == before.llm.temperature_bits
        &&& option_view(self.search.serpapi_key) == overridden_option(
            before.search.serpapi_key,
            env.serpapi_key,
        )
        &&& self.search.arxiv_max_results == before.search.arxiv_max_results
        &&& self.search.pdf_storage_path == before.search.pdf_storage_path
        &&& self.search.embedding_model == before.search.embedding_model
        &&& self.search.embedding_dimension == before.search.embedding_dimension
        &&& self.security.jwt_secret@ == overridden(before.security.jwt_secret@, env.jwt_secret)
        &&& self.security.jwt_expiry_hours == before.security.jwt_expiry_hours
        &&& self.security.allowed_wireguard_ips == before.security.allowed_wireguard_ips
        &&& self.security.enable_zero_trust == before.security.enable_zero_trust
        &&& self.security.vault_addr == before.security.vault_addr
        &&& self.security.vault_token == before.security.vault_token
        &&& self.security.tls_cert_path == before.security.tls_cert_path
        &&& self.security.tls_key_path == before.security.tls_key_path
        &&& self.database.redis_url@ == overridden(before.database.redis_url@, env.redis_url)
        &&& self.database.qdrant_url@ == overridden(before.database.qdrant_url@, env.qdrant_url)
        &&& self.database.questdb_host == before.database.questdb_host
        &&& self.database.questdb_port == before.database.questdb_port
        &&& self.database.qdrant_collection == before.database.qdrant_collection
        &&& self.julia == before.julia
    }

    /// Applies what the environment says.
    pub fn apply_env_overrides(&mut self, env: &EnvOverrides)
        ensures
            final(self).is_overridden(*old(self), *env),
    {
        match &env.port {
            Some(text) => match parse_u16(text.as_str()) {
                Some(port) => { self.server.port = port; },
                None => {},
            },
            None => {},
        }
        match &env.host {
            Some(host) => { self.server.host = host.clone(); },
            None => {},
        }
        match &env.openai_api_key {
            Some(key) => { self.llm.openai_api_key = Some(key.clone()); },
            None => {},
        }
        match &env.anthropic_api_key {
            Some(key) => { self.llm.anthropic_api_key = Some(key.clone()); },
            None => {},
        }
        match &env.serpapi_key {
            Some(key) => { self.search.serpapi_key = Some(key.clone()); },
            None => {},
        }
        match &env.jwt_secret {
            Some(secret) => { self.security.jwt_secret = secret.clone(); },
            None => {},
        }
        match &env.redis_url {
            Some(url) => { self.database.redis_url = url.clone(); },
            None => {},
        }
        match &env.qdrant_url {
            Some(url) => { self.database.qdrant_url = url.clone(); },
            None => {},
        }
    }

    /// The settings to run with: those of the configuration file if there
    /// is one, else the defaults for `workers` workers, with the overrides
    /// of the environment applied.
    pub fn load(from_file: Option<Settings>, workers: usize, env: &EnvOverrides) -> (settings:
        Settings)
        ensures
            match from_file {
                Some(read) => settings.is_overridden(read, *env),
                None => exists|base: Settings| #[trigger]
                    base.is_default(workers) && settings.is_overridden(base, *env),
            },
    {
        let mut settings = match from_file {
            Some(read) => read,
            None => Settings::defaults(workers),
        };
        settings.apply_env_overrides(env);
        settings
    }
}

} // verus!
