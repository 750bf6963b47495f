//! A chat bot core: it authorizes inbound chat events, resolves translate
//! commands to a target language and a query text, and decides what to
//! reply; pushed events reach the dispatcher through a first-in first-out
//! queue that drains before it closes on shutdown.

pub mod auth;
pub mod commands;
pub mod config;
pub mod dispatch;
pub mod error;
pub mod event;
pub mod ingest;
pub mod language;
pub mod settings;
pub mod text;
pub mod translate;

pub use auth::Auth;
pub use commands::{parse_command_text, resolve_translate, Command, ResolveError, ResolvedRequest};
pub use config::{merge_config, AllowedChat, Config, EnvConfig, SecretString, TomlConfig, Webhook};
pub use dispatch::{after_translation, decide, format_reply, Action, Outgoing};
pub use error::AppError;
pub use event::{EarlierMessage, InboundEvent};
pub use ingest::{receive_webhook, Next, UpdateQueue, WebhookReceipt};
pub use language::Language;
pub use settings::{parse_bind_address, parse_port, parse_webhook_mode};
pub use translate::{build_query, check_status, first_translation, TranslateQuery, Translation};
