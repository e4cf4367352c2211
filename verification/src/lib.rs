//! Core of a push-to-talk dictation tool: hotkey actions are resolved through
//! a registry, recording start/stop is sequenced into explicit effect lists,
//! transcription requests are routed to a local engine or a remote provider
//! with a bounded Deepgram model fallback, raw text is finalized by script
//! conversion or an LLM rewrite, and provider secrets are served from a
//! write-through cache over the OS credential store.

pub mod audio;
pub mod dispatch;
pub mod finalize;
pub mod router;
pub mod secret_cache;
pub mod settings;
pub mod strutil;
