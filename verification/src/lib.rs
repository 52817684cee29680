pub mod domain;
pub mod engine_selection;
pub mod text_order;
pub mod event_log;
pub mod controller;
pub mod interaction;
pub mod patch;
pub mod payloads;
pub mod app_event;
pub mod registry;
pub mod default_session;
pub mod rejection;
pub mod focus;
pub mod app_state;
pub mod transitions;
pub mod structural_events;
pub mod dispatch;
