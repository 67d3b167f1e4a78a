use prior_notebook::config::num_cpus::get;
use prior_notebook::config::{EnvOverrides, LlmProvider, Settings};

fn no_overrides() -> EnvOverrides {
    EnvOverrides {
        port: None,
        host: None,
        openai_api_key: None,
        anthropic_api_key: None,
        serpapi_key: None,
        jwt_secret: None,
        redis_url: None,
        qdrant_url: None,
    }
}

#[test]
fn defaults_are_the_documented_ones() {
    let settings = Settings::defaults(6);
    assert_eq!(settings.server.host, "127.0.0.1");
    assert_eq!(settings.server.port, 8080);
    assert_eq!(settings.server.workers, 6);
    assert_eq!(settings.server.max_connections, 10000);
    assert_eq!(settings.server.request_timeout_secs, 30);
    assert_eq!(settings.database.questdb_host, "localhost");
    assert_eq!(settings.database.questdb_port, 9009);
    assert_eq!(settings.database.redis_url, "redis://localhost:6379");
    assert_eq!(settings.database.qdrant_url, "http://localhost:6334");
    assert_eq!(settings.database.qdrant_collection, "prior_notebook");
    assert_eq!(settings.security.jwt_secret, "CHANGE_ME_IN_PRODUCTION");
    assert_eq!(settings.security.jwt_expiry_hours, 24);
    assert_eq!(settings.security.allowed_wireguard_ips, vec!["10.0.0.0/24".to_string()]);
    assert!(settings.security.enable_zero_trust);
    assert!(settings.security.vault_addr.is_none());
    assert!(settings.security.tls_cert_path.is_none());
    assert!(settings.search.serpapi_key.is_none());
    assert_eq!(settings.search.arxiv_max_results, 50);
    assert_eq!(settings.search.pdf_storage_path, "./data/pdfs");
    assert_eq!(settings.search.embedding_model, "BAAI/bge-small-en-v1.5");
    assert_eq!(settings.search.embedding_dimension, 384);
    assert_eq!(settings.llm.default_provider, LlmProvider::Anthropic);
    assert_eq!(settings.llm.ollama_url.as_deref(), Some("http://localhost:11434"));
    assert_eq!(settings.llm.max_tokens, 4096);
    assert_eq!(settings.llm.temperature_bits, 0.7f32.to_bits());
    assert!(!settings.julia.enabled);
    assert_eq!(settings.julia.project_path, "./julia_lib");
    assert_eq!(settings.julia.num_threads, 4);
}

#[test]
fn workers_default_to_four() {
    assert_eq!(get(Some(16)), 16);
    assert_eq!(get(None), 4);
}

#[test]
fn environment_overrides_what_it_names() {
    let mut settings = Settings::defaults(2);
    let env = EnvOverrides {
        port: Some("9090".to_string()),
        host: Some("0.0.0.0".to_string()),
        openai_api_key: Some("sk-1".to_string()),
        anthropic_api_key: Some("sk-2".to_string()),
        serpapi_key: Some("serp".to_string()),
        jwt_secret: Some("s3cret".to_string()),
        redis_url: Some("redis://r:1".to_string()),
        qdrant_url: Some("http://q:2".to_string()),
    };
    settings.apply_env_overrides(&env);
    assert_eq!(settings.server.port, 9090);
    assert_eq!(settings.server.host, "0.0.0.0");
    assert_eq!(settings.llm.openai_api_key.as_deref(), Some("sk-1"));
    assert_eq!(settings.llm.anthropic_api_key.as_deref(), Some("sk-2"));
    assert_eq!(settings.search.serpapi_key.as_deref(), Some("serp"));
    assert_eq!(settings.security.jwt_secret, "s3cret");
    assert_eq!(settings.database.redis_url, "redis://r:1");
    assert_eq!(settings.database.qdrant_url, "http://q:2");
    assert_eq!(settings.server.workers, 2);
    assert_eq!(settings.database.questdb_port, 9009);
}

#[test]
fn an_unreadable_port_is_ignored() {
    for text in ["", "abc", "65536", "-1", "80 ", "8o8o"] {
        let mut settings = Settings::defaults(1);
        let mut env = no_overrides();
        env.port = Some(text.to_string());
        settings.apply_env_overrides(&env);
        assert_eq!(settings.server.port, 8080, "{:?}", text);
    }
    for (text, port) in [("0", 0u16), ("65535", 65535), ("+443", 443), ("0080", 80)] {
        let mut settings = Settings::defaults(1);
        let mut env = no_overrides();
        env.port = Some(text.to_string());
        settings.apply_env_overrides(&env);
        assert_eq!(settings.server.port, port, "{:?}", text);
    }
}

#[test]
fn nothing_set_changes_nothing() {
    let mut settings = Settings::defaults(3);
    settings.llm.openai_api_key = Some("kept".to_string());
    settings.apply_env_overrides(&no_overrides());
    assert_eq!(settings.server.port, 8080);
    assert_eq!(settings.server.host, "127.0.0.1");
    assert_eq!(settings.llm.openai_api_key.as_deref(), Some("kept"));
    assert_eq!(settings.security.jwt_secret, "CHANGE_ME_IN_PRODUCTION");
}

#[test]
fn load_prefers_the_file() {
    let mut from_file = Settings::defaults(1);
    from_file.server.port = 1234;
    from_file.server.host = "file-host".to_string();
    let mut env = no_overrides();
    env.host = Some("env-host".to_string());
    let settings = Settings::load(Some(from_file), 8, &env);
    assert_eq!(settings.server.port, 1234);
    assert_eq!(settings.server.host, "env-host");
    assert_eq!(settings.server.workers, 1);
    let settings = Settings::load(None, 8, &env);
    assert_eq!(settings.server.port, 8080);
    assert_eq!(settings.server.host, "env-host");
    assert_eq!(settings.server.workers, 8);
}
