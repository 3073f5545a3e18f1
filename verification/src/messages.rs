pub mod chat_manager;
pub mod message_censor;
pub mod message_censor_impl;
