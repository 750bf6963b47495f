use hilfmir::{merge_config, AllowedChat, Config, EnvConfig, SecretString, TomlConfig};

fn chat(id: i64) -> AllowedChat {
    AllowedChat { id, name: format!("chat{}", id) }
}

fn env() -> EnvConfig {
    EnvConfig {
        teloxide_token: None,
        google_cloud_api_key: None,
        allowed_chats: vec![],
        domain_host: "bot.example.org".to_string(),
        bind_address: [127, 0, 0, 1],
        port: 8443,
        is_webhook_mode_enabled: true,
    }
}

#[test]
fn webhook_address_is_derived_from_token_and_host() {
    let c = Config::new(
        SecretString::new("123:abc".to_string()),
        SecretString::new("key".to_string()),
        vec![],
        "bot.example.org".to_string(),
        [0, 0, 0, 0],
        8080,
        true,
    );
    let w = c.webhook.unwrap();
    assert_eq!(w.path, "/123:abc/api/v1/message");
    assert_eq!(w.url, "https://bot.example.org/123:abc/api/v1/message");
}

#[test]
fn no_webhook_in_long_poll_mode() {
    let c = Config::new(
        SecretString::new("t".to_string()),
        SecretString::new("k".to_string()),
        vec![],
        "h".to_string(),
        [0, 0, 0, 0],
        8080,
        false,
    );
    assert!(c.webhook.is_none());
    assert_eq!(c.teloxide_token.expose_secret(), "t");
}

#[test]
fn environment_wins_over_file() {
    let mut e = env();
    e.teloxide_token = Some("env-token".to_string());
    e.allowed_chats = vec![chat(1)];
    let t = TomlConfig {
        teloxide_token: Some("file-token".to_string()),
        google_cloud_api_key: Some("file-key".to_string()),
        allowed_chats: vec![chat(2), chat(3)],
    };
    let c = merge_config(t, e).unwrap();
    assert_eq!(c.teloxide_token.expose_secret(), "env-token");
    assert_eq!(c.google_cloud_api_key.expose_secret(), "file-key");
    assert_eq!(c.allowed_chats.len(), 1);
    assert_eq!(c.allowed_chats[0].id, 1);
    assert_eq!(c.port, 8443);
    assert_eq!(c.bind_address, [127, 0, 0, 1]);
    assert_eq!(c.webhook.unwrap().url, "https://bot.example.org/env-token/api/v1/message");
}

#[test]
fn file_chats_used_when_environment_lists_none() {
    let mut e = env();
    e.teloxide_token = Some("t".to_string());
    e.google_cloud_api_key = Some("k".to_string());
    let t = TomlConfig { teloxide_token: None, google_cloud_api_key: None, allowed_chats: vec![chat(2), chat(3)] };
    let c = merge_config(t, e).unwrap();
    assert_eq!(c.allowed_chats.iter().map(|c| c.id).collect::<Vec<_>>(), vec![2, 3]);
}

#[test]
fn missing_token_is_an_error() {
    let t = TomlConfig { teloxide_token: None, google_cloud_api_key: Some("k".to_string()), allowed_chats: vec![] };
    assert_eq!(merge_config(t, env()).unwrap_err().msg, "TELOXIDE_TOKEN not specified");
}

#[test]
fn missing_api_key_is_an_error() {
    let t = TomlConfig { teloxide_token: Some("t".to_string()), google_cloud_api_key: None, allowed_chats: vec![] };
    assert_eq!(merge_config(t, env()).unwrap_err().msg, "GOOGLE_CLOUD_API_KEY not specified");
}

#[test]
fn secrets_are_kept_out_of_debug_output() {
    let s = SecretString::new("hunter2".to_string());
    assert!(!format!("{:?}", s).contains("hunter2"));
    assert_eq!(s.clone().expose_secret(), "hunter2");
    assert_eq!(SecretString::default().expose_secret(), "");
}
