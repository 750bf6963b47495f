//! Configuration values: secrets, the allowed chats and the webhook address.

use crate::error::AppError;
use secrecy::ExposeSecret;
use vstd::prelude::*;

verus! {

/// The text that a secret holds.
pub uninterp spec fn secret_text(s: SecretString) -> Seq<char>;

/// A string that is kept out of debug output, held in a `secrecy::Secret`.
#[verifier::external_body]
#[derive(Debug)]
pub struct SecretString(secrecy::Secret<String>);

impl View for SecretString {
    type V = Seq<char>;

    open spec fn view(&self) -> Seq<char> {
        secret_text(*self)
    }
}

impl SecretString {
    /// Relies on `secrecy::Secret::new`, which stores the given value as it is.
    #[verifier::external_body]
    pub fn new(secret: String) -> (r: SecretString)
        ensures
            secret_text(r) == secret@,
    {
        SecretString(secrecy::Secret::new(secret))
    }

    /// Relies on `ExposeSecret::expose_secret` of `secrecy::Secret`, which
    /// hands out a reference to the stored value.
    #[verifier::external_body]
    pub fn expose_secret(&self) -> (r: &str)
        ensures
            r@ == secret_text(*self),
    {
        ExposeSecret::expose_secret(&self.0).as_str()
    }
}

impl Clone for SecretString {
    fn clone(&self) -> (r: SecretString)
        ensures
            r@ == self@,
    {
        SecretString::new(self.expose_secret().to_owned())
    }
}

impl Default for SecretString {
    fn default() -> (r: SecretString)
        ensures
            r@ == Seq::<char>::empty(),
    {
        SecretString::new(String::new())
    }
}

/// A chat that may talk to the bot.
#[derive(Debug, Clone)]
pub struct AllowedChat {
    pub id: i64,
    pub name: String,
}

/// Settings read from the environment.
#[derive(Debug, Default)]
pub struct EnvConfig {
    pub teloxide_token: Option<String>,
    pub google_cloud_api_key: Option<String>,
    pub allowed_chats: Vec<AllowedChat>,
    pub domain_host: String,
    pub bind_address: [u8; 4],
    pub port: u16,
    pub is_webhook_mode_enabled: bool,
}

/// Settings read from the configuration file.
#[derive(Debug, Default)]
pub struct TomlConfig {
    pub teloxide_token: Option<String>,
    pub google_cloud_api_key: Option<String>,
    pub allowed_chats: Vec<AllowedChat>,
}

/// Where the platform pushes updates in webhook mode.
#[derive(Debug, Clone)]
pub struct Webhook {
    pub path: String,
    pub url: String,
}

/// The complete configuration of the bot.
#[derive(Debug)]
pub struct Config {
    pub teloxide_token: SecretString,
    pub google_cloud_api_key: SecretString,
    pub allowed_chats: Vec<AllowedChat>,
    pub domain_host: String,
    pub bind_address: [u8; 4],
    pub port: u16,
    pub is_webhook_mode_enabled: bool,
    pub webhook: Option<Webhook>,
}

/// The path that updates are pushed to: `/<token>/api/v1/message`.
pub open spec fn webhook_path(token: Seq<char>) -> Seq<char> {
    seq!['/'] + token + seq!['/', 'a', 'p', 'i', '/', 'v', '1', '/', 'm', 'e', 's', 's', 'a', 'g', 'e']
}

/// The public address of the webhook: `https://<host><path>`.
pub open spec fn webhook_url(host: Seq<char>, token: Seq<char>) -> Seq<char> {
    seq!['h', 't', 't', 'p', 's', ':', '/', '/'] + host + webhook_path(token)
}

impl Config {
    /// Assembles a configuration; in webhook mode it derives the webhook's
    /// path and public address from the bot token and the domain host.
    pub fn new(
        teloxide_token: SecretString,
        google_cloud_api_key: SecretString,
        allowed_chats: Vec<AllowedChat>,
        domain_host: String,
        bind_address: [u8; 4],
        port: u16,
        is_webhook_mode_enabled: bool,
    ) -> (r: Config)
        ensures
            r.teloxide_token@ == teloxide_token@,
            r.google_cloud_api_key@ == google_cloud_api_key@,
            r.allowed_chats@ == allowed_chats@,
            r.domain_host@ == domain_host@,
            r.bind_address == bind_address,
            r.port == port,
            r.is_webhook_mode_enabled == is_webhook_mode_enabled,
            r.webhook is Some <==> is_webhook_mode_enabled,
            r.webhook matches Some(w) ==> {
                &&& w.path@ == webhook_path(teloxide_token@)
                &&& w.url@ == webhook_url(domain_host@, teloxide_token@)
            },
    {
        let webhook = if is_webhook_mode_enabled {
            let path = String::from_str("/").concat(teloxide_token.expose_secret()).concat(
                "/api/v1/message",
            );
            let url = String::from_str("https://").concat(domain_host.as_str()).concat(
                path.as_str(),
            );
            proof {
                reveal_strlit("/");
                reveal_strlit("/api/v1/message");
                reveal_strlit("https://");
                assert(path@ =~= webhook_path(teloxide_token@));
                assert(url@ =~= webhook_url(domain_host@, teloxide_token@));
            }
            Some(Webhook { path, url })
        } else {
            None
        };
        Config {
            teloxide_token,
            google_cloud_api_key,
            allowed_chats,
            domain_host,
            bind_address,
            port,
            is_webhook_mode_enabled,
            webhook,
        }
    }
}

/// The first of two optional values that is present.
pub open spec fn first_present(a: Option<String>, b: Option<String>) -> Option<String> {
    if a is Some {
        a
    } else {
        b
    }
}

/// The allowed chats of the environment where it lists any, else those of the file.
pub open spec fn chosen_chats(env: Seq<AllowedChat>, file: Seq<AllowedChat>) -> Seq<AllowedChat> {
    if env.len() > 0 {
        env
    } else {
        file
    }
}

/// Takes every secret from the environment where it is set there, else from
/// the file, and the allowed chats likewise where the environment lists any;
/// the remaining settings come from the environment. Fails where a secret is
/// given by neither.
pub fn merge_config(toml_config: TomlConfig, env_config: EnvConfig) -> (r: Result<Config, AppError>)
    ensures
        r is Ok <==> first_present(env_config.teloxide_token, toml_config.teloxide_token) is Some
            && first_present(env_config.google_cloud_api_key, toml_config.google_cloud_api_key) is Some,
        r matches Ok(c) ==> {
            &&& c.teloxide_token@ == first_present(env_config.teloxide_token, toml_config.teloxide_token)->0@
            &&& c.google_cloud_api_key@ == first_present(env_config.google_cloud_api_key, toml_config.google_cloud_api_key)->0@
            &&& c.allowed_chats@ == chosen_chats(env_config.allowed_chats@, toml_config.allowed_chats@)
            &&& c.domain_host@ == env_config.domain_host@
            &&& c.bind_address == env_config.bind_address
            &&& c.port == env_config.port
            &&& c.is_webhook_mode_enabled == env_config.is_webhook_mode_enabled
            &&& (c.webhook is Some <==> env_config.is_webhook_mode_enabled)
            &&& c.webhook matches Some(w) ==> {
                &&& w.path@ == webhook_path(c.teloxide_token@)
                &&& w.url@ == webhook_url(c.domain_host@, c.teloxide_token@)
            }
        },
        r matches Err(e) ==> if first_present(env_config.teloxide_token, toml_config.teloxide_token) is None {
            e.msg@ == "TELOXIDE_TOKEN not specified"@
        } else {
            e.msg@ == "GOOGLE_CLOUD_API_KEY not specified"@
        },
{
    let teloxide_token = match env_config.teloxide_token {
        Some(t) => t,
        None => match toml_config.teloxide_token {
            Some(t) => t,
            None => {
                return Err(AppError { msg: String::from_str("TELOXIDE_TOKEN not specified") });
            },
        },
    };
    let google_cloud_api_key = match env_config.google_cloud_api_key {
        Some(k) => k,
        None => match toml_config.google_cloud_api_key {
            Some(k) => k,
            None => {
                return Err(AppError { msg: String::from_str("GOOGLE_CLOUD_API_KEY not specified") });
            },
        },
    };
    let allowed_chats = if env_config.allowed_chats.len() > 0 {
        env_config.allowed_chats
    } else {
        toml_config.allowed_chats
    };
    Ok(Config::new(
        SecretString::new(teloxide_token),
        SecretString::new(google_cloud_api_key),
        allowed_chats,
        env_config.domain_host,
        env_config.bind_address,
        env_config.port,
        env_config.is_webhook_mode_enabled,
    ))
}

} // verus!
