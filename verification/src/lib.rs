//! Validation and dispatch rules of a desktop shell that hosts a web UI:
//! which external strings may reach the UI, which commands succeed, and
//! which events are sent in answer to host callbacks.

pub mod commands;
pub mod events;
pub mod lifecycle;
pub mod tray;
pub mod validator;
pub mod window;
