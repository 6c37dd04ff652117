pub mod text;
pub mod numtext;
pub mod calendar;
pub mod timestamp_order;
pub mod digest;
pub mod error;
pub mod config;
pub mod credential;
pub mod domain;
pub mod open_api;
pub mod json;
pub mod fields;
pub mod ids;
pub mod event_codec;
pub mod webhook;
pub mod volcengine_webhook;
pub mod livekit_webhook;
pub mod provider_core;
pub mod agora;
pub mod query;
pub mod media;
pub mod aliyun;
pub mod volcengine;
pub mod livekit;
pub mod tencent;
pub mod database;
pub mod assembly;
pub mod media_session;
pub mod provider_account;
pub mod storage_values;
pub mod laws;
pub mod laws_behaviour;
pub mod persistence;
pub mod list_page;
pub mod account_listing;
pub mod provider_event;
pub mod sql;
