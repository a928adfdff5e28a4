//! Verified core of the agent blocklist: the rules that decide what an agent
//! may do on its own, the queue of prompts waiting to be sent, which terminal
//! view owns which conversation, the liveness accounting of long-running
//! commands, the shell commands built for file searches, and the answers and
//! messages the agent's actions and bars produce.

pub mod shell;

pub mod file_glob;
pub mod lrc_activity;
pub mod process_tree;
pub mod queued_query;
pub mod toolbar;
pub mod block_model;
pub mod permissions;
pub mod text;
pub mod agent_view;
pub mod conversation_details;
pub mod controller;
pub mod history;
pub mod suggestions;
pub mod command_attribution;
pub mod context_references;
pub mod history_model;
pub mod file_edits;
pub mod status_bar;
pub mod attachments;
pub mod message_bar;
pub mod search_codebase;
pub mod request_computer_use;
