//! Verified core of an ntfy-compatible notification server: access control,
//! message formats, the action-button grammar, scheduling, quotas and the
//! SMTP gateway's session logic.

pub mod auth;
pub mod text;
pub mod outside;
pub mod actions;
pub mod message;
pub mod smtp;
pub mod fcm;
pub mod schedule;
pub mod config;
pub mod publish;
pub mod flow;
pub mod limits;
pub mod gateway;
