pub mod app_state;
pub mod cli;
pub mod client;
pub mod messages;
pub mod mqtt;
pub mod mqtt_form;
pub mod outside;
pub mod param_tabs;
pub mod payload;
pub mod prepare;
pub mod publish;
pub mod request;
pub mod text;
