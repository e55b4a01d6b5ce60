// Text helpers over `str` with exact specifications.
pub mod text;

// The event bridge: messages, the line decoder, worker outcomes, and the
// dispatcher and guard on the UI side.
pub mod event;
pub mod worker;
pub mod bridge;

// Task inputs and the state they are taken from.
pub mod template;
pub mod automation;
pub mod auth;
pub mod http_client;
pub mod http;

// UI-side state kept by the application.
pub mod session;
pub mod dialogs;
pub mod status_line;
pub mod tree;
pub mod collections_tree;
pub mod clipboard;
pub mod config;
pub mod help;
