//! The Android backend of a webview library: which webviews exist, what is registered for each
//! of them, and what is asked of the Java side when a message for one of them arrives.
pub mod action;
pub mod activity;
pub mod attributes;
pub mod color;
pub mod cookies;
pub mod counter;
pub mod creation_laws;
pub mod effect_laws;
pub mod effects;
pub mod error;
pub mod headers;
pub mod host;
pub mod inner_webview;
pub mod java;
pub mod laws;
pub mod main_pipe;
pub mod message;
pub mod outside;
pub mod pipe_laws;
pub mod plan;
pub mod plan_laws;
pub mod registries;
pub mod registry;
pub mod request;
pub mod run;
pub mod setup;
pub mod supply;
pub mod text;
pub mod wake;
pub mod work_around;
