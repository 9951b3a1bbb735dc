pub mod authenticator;
pub mod json;
pub mod message;
pub mod message_receiver;
pub mod message_sender;
pub mod messenger;
pub mod settings;
pub mod string_map;
pub mod subscription_id;
pub mod task_queue;
pub mod text;
pub mod ui_connector;
pub mod wire;
