//! Verified core of a command-line client for Oray smart plugs and remotes.

pub mod auth;
pub mod auth_cmd;
pub mod captcha;
pub mod config;
pub mod error;
pub mod json;
pub mod logs;
pub mod logs_cmd;
pub mod mobile;
pub mod output;
pub mod plug;
pub mod plug_call;
pub mod plug_cmd;
pub mod plug_report;
pub mod prompt;
pub mod remote;
pub mod remote_cmd;
pub mod schedule;
pub mod single;
pub mod text;
pub mod times;
pub mod token;
pub mod trace;
pub mod url;
pub mod wakeup;
pub mod wakeup_cmd;
