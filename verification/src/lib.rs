//! RustCode core library: configuration and settings profiles, permission
//! rules, slash-command parsing, the onboarding dialogue, drafts and panels,
//! compaction decisions, session bookkeeping, the system prompt, the
//! decoding of streamed replies, the wire shapes of chat requests, and the
//! decisions of model turns and agent runs.

pub mod text;
pub mod runtime;
pub mod permissions;
pub mod compact;
pub mod api_config;
pub mod numbers;
pub mod config;
pub mod paths;
pub mod commands;
pub mod slash;
pub mod markdown;
pub mod settings;
pub mod status;
pub mod api;
pub mod ids;
pub mod session;
pub mod agents;
pub mod onboarding;
pub mod desktop;
pub mod file_history;
pub mod stream;
pub mod query;
pub mod doctor;
pub mod agent_run;
pub mod init;
pub mod diff;
pub mod prompts;
pub mod fallback_dialog;
pub mod onboarding_dialog;
pub mod system_prompt;
pub mod panels;
pub mod wire;
pub mod skills;
